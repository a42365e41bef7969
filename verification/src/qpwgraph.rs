//! The patchbay.

use vstd::prelude::*;
use crate::text::{push_text, texts};

verus! {

/// The patchbay program.
pub const PROGRAM: &'static str = "qpwgraph";

/// The patchbay's arguments: the path of its session file.
pub fn arguments(session_file: &str) -> (arguments: Vec<String>)
    ensures
        texts(arguments@) == seq![session_file@],
{
    let mut arguments: Vec<String> = Vec::new();
    assert(texts(arguments@) =~= Seq::<Seq<char>>::empty());
    push_text(&mut arguments, session_file);
    assert(texts(arguments@) =~= seq![session_file@]);
    arguments
}

} // verus!
