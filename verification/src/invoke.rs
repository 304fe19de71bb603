//! The producer invocation contract: the external command name and the
//! environment-variable set handed to one producer, a pure function of the
//! target document and the producer descriptor. Launching the command and
//! capturing its output is the caller's output boundary.

use vstd::prelude::*;

use crate::document::TargetDocument;
use crate::producer::ProducerSpec;
use crate::text::{dec_str, usize_to_decimal};

verus! {

/// The external command identifier: a fixed namespace prefix followed by
/// the producer's name.
pub open spec fn command_name_spec(name: Seq<char>) -> Seq<char> {
    "anno-"@ + name
}

/// The four environment variables a producer is given: the target's
/// resolved path, its decimal line count, the producer's own name, and the
/// producer's source string (possibly empty).
pub open spec fn env_spec(path: Seq<char>, count: nat, name: Seq<char>, source: Seq<char>) -> Seq<
    (Seq<char>, Seq<char>),
> {
    seq![
        ("ANNO_TARGET"@, path),
        ("ANNO_TARGET_LINES"@, dec_str(count)),
        ("ANNO_PRODUCER"@, name),
        ("ANNO_SOURCE"@, source),
    ]
}

/// Everything one producer launch needs, built before the launch: the
/// command to run and the environment to hand it.
#[derive(Debug, Clone, PartialEq, Eq)]
pub struct Invocation {
    pub command: String,
    pub env: Vec<(String, String)>,
}

impl Invocation {
    /// Computes the invocation for one producer against one target.
    pub fn new(doc: &TargetDocument, producer: &ProducerSpec) -> (inv: Invocation)
        ensures
            inv.command@ == command_name_spec(producer.name@),
            inv.env.deep_view() == env_spec(
                doc.path@,
                doc.lines@.len() as nat,
                producer.name@,
                producer.source@,
            ),
    {
        let mut command = "anno-".to_owned();
        command.append(producer.name.as_str());

        let count = usize_to_decimal(doc.lines.len());
        let mut env: Vec<(String, String)> = Vec::new();
        env.push(("ANNO_TARGET".to_owned(), doc.path.clone()));
        env.push(("ANNO_TARGET_LINES".to_owned(), count));
        env.push(("ANNO_PRODUCER".to_owned(), producer.name.clone()));
        env.push(("ANNO_SOURCE".to_owned(), producer.source.clone()));
        proof {
            assert(env.deep_view() =~= env_spec(
                doc.path@,
                doc.lines@.len() as nat,
                producer.name@,
                producer.source@,
            ));
        }
        Invocation { command, env }
    }
}

} // verus!
