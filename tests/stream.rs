use crossbeam_channel::unbounded;
use crossbeam_channel::Sender;
use nexus_native::manager::ModelManager;
use nexus_native::models::ModelKind;
use nexus_native::stream::{error_token, run_generation, stream_tokens, Generation, Producer};

fn words(ws: &[&str]) -> Vec<String> {
    ws.iter().map(|w| w.to_string()).collect()
}

#[test]
fn tokens_arrive_in_order() {
    let (tx, rx) = unbounded();
    let tokens = words(&["The", "quick", "brown", "fox"]);
    let p = stream_tokens(&tokens, &tx);
    drop(tx);
    assert_eq!((p.attempted(), p.accepted(), p.cancelled()), (4, 4, false));
    let mut seen = Vec::new();
    for t in rx.iter() {
        seen.push(t);
    }
    assert_eq!(seen, tokens);
}

#[test]
fn closed_receiver_stops_after_one_token() {
    let (tx, rx) = unbounded::<String>();
    drop(rx);
    let p = stream_tokens(&words(&["a", "b", "c"]), &tx);
    assert_eq!((p.attempted(), p.accepted(), p.cancelled()), (1, 0, true));
}

#[test]
fn cancellation_after_observed_tokens() {
    let (tx, rx) = unbounded::<String>();
    let mut p = Producer::new();
    assert!(p.on_token(&tx, "one".to_string()));
    assert!(p.on_token(&tx, "two".to_string()));
    assert_eq!(rx.recv().unwrap(), "one");
    drop(rx);
    assert!(!p.on_token(&tx, "three".to_string()));
    assert_eq!((p.attempted(), p.accepted(), p.cancelled()), (3, 2, true));
}

#[test]
fn record_goes_on_exactly_when_delivered() {
    let mut p = Producer::new();
    assert!(p.record(&"a".to_string(), true));
    assert!(!p.record(&"b".to_string(), false));
    assert_eq!((p.attempted(), p.accepted(), p.cancelled()), (2, 1, true));
}

#[test]
fn empty_stream_yields_no_callbacks() {
    let (tx, rx) = unbounded::<String>();
    let p = stream_tokens(&Vec::new(), &tx);
    drop(tx);
    assert_eq!((p.attempted(), p.accepted(), p.cancelled()), (0, 0, false));
    let mut calls = 0;
    for _ in rx.iter() {
        calls += 1;
    }
    assert_eq!(calls, 0);
}

#[test]
fn failure_is_reported_as_sentinel() {
    assert_eq!(error_token("out of memory"), "[ENGINE ERROR]: out of memory");
    let (tx, rx) = unbounded();
    let mut p = stream_tokens(&words(&["partial"]), &tx);
    p.report_failure(&tx, "decode failed");
    drop(tx);
    let seen: Vec<String> = rx.iter().collect();
    assert_eq!(seen, words(&["partial", "[ENGINE ERROR]: decode failed"]));
}

struct FakeModel {
    script: Vec<(String, Vec<String>)>,
}

impl FakeModel {
    fn generate(&mut self, prompt: &str, tx: Sender<String>) {
        for (p, tokens) in &self.script {
            if p == prompt {
                stream_tokens(tokens, &tx);
            }
        }
    }
}

fn bridge(manager: &mut ModelManager<FakeModel>, prompt: &str, callback: &mut dyn FnMut(&str)) -> Generation {
    let (tx, rx) = unbounded();
    let started = run_generation(manager, tx, |engine: &mut FakeModel, tx| engine.generate(prompt, tx));
    for token in rx.iter() {
        callback(&token);
    }
    started
}

#[test]
fn bridge_delivers_tokens_in_order() {
    let mut m = ModelManager::new();
    let script = vec![("test".to_string(), words(&["The", "quick", "brown", "fox"]))];
    assert!(m.load(ModelKind::Small, |_p, _t| Ok(FakeModel { script })).is_ok());
    let mut seen: Vec<String> = Vec::new();
    let g = bridge(&mut m, "test", &mut |t| seen.push(t.to_string()));
    assert_eq!(g, Generation::Started);
    assert_eq!(seen, words(&["The", "quick", "brown", "fox"]));
}

#[test]
fn bridge_with_empty_output_calls_nothing() {
    let mut m = ModelManager::new();
    assert!(m.load(ModelKind::Small, |_p, _t| Ok(FakeModel { script: Vec::new() })).is_ok());
    let mut calls = 0;
    let g = bridge(&mut m, "test", &mut |_| calls += 1);
    assert_eq!(g, Generation::Started);
    assert_eq!(calls, 0);
}

#[test]
fn no_model_means_no_generation() {
    let mut m: ModelManager<FakeModel> = ModelManager::new();
    let mut calls = 0;
    let g = bridge(&mut m, "test", &mut |_| calls += 1);
    assert_eq!(g, Generation::NotLoaded);
    assert_eq!(calls, 0);
}
