use vstd::prelude::*;

verus! {

/// Which model file, and so which configuration, to load.
#[derive(Clone, Copy, Debug, PartialEq, Eq, Structural)]
pub enum ModelKind {
    Small,
    Medium,
    Large,
}

/// The on-disk location of the model file for `kind`.
pub open spec fn model_file(kind: ModelKind) -> Seq<char> {
    match kind {
        ModelKind::Small => "models/small.gguf"@,
        ModelKind::Medium => "models/medium.gguf"@,
        ModelKind::Large => "models/large.gguf"@,
    }
}

/// Resolves the on-disk path of the model file for `kind`.
pub fn model_path(kind: ModelKind) -> (r: String)
    ensures
        r@ == model_file(kind),
{
    match kind {
        ModelKind::Small => {
            proof {
                reveal_strlit("models/small.gguf");
            }
            "models/small.gguf".to_owned()
        },
        ModelKind::Medium => {
            proof {
                reveal_strlit("models/medium.gguf");
            }
            "models/medium.gguf".to_owned()
        },
        ModelKind::Large => {
            proof {
                reveal_strlit("models/large.gguf");
            }
            "models/large.gguf".to_owned()
        },
    }
}

} // verus!
