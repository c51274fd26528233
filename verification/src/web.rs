//! The web front-end's shared state and the typed links the pages emit.
//! Serving HTTP happens outside the library.

use vstd::prelude::*;

use crate::hook::HookRunner;
use crate::text::{dec_str_signed, push_char, push_i32};

verus! {

/// What every request handler works with: the store's address and the hook
/// registry.
#[derive(Debug)]
pub struct Config {
    pub mlmd_db: String,
    pub hook_runner: HookRunner,
}

/// A typed link to a type's detail page.
#[derive(Debug, Clone, Copy, PartialEq, Eq, Structural)]
pub enum Link {
    ArtifactType(i32),
    ExecutionType(i32),
    ContextType(i32),
}

/// The markdown rendering of a link: the id, linked to the detail page.
pub open spec fn link_markdown(l: Link) -> Seq<char> {
    match l {
        Link::ArtifactType(x) => seq!['['] + dec_str_signed(x as int) + "](/artifact_types/"@
            + dec_str_signed(x as int) + seq![')'],
        Link::ExecutionType(x) => seq!['['] + dec_str_signed(x as int) + "](/execution_types/"@
            + dec_str_signed(x as int) + seq![')'],
        Link::ContextType(x) => seq!['['] + dec_str_signed(x as int) + "](/context_types/"@
            + dec_str_signed(x as int) + seq![')'],
    }
}

impl Link {
    /// Renders the link as markdown.
    pub fn to_markdown(&self) -> (r: String)
        ensures
            r@ == link_markdown(*self),
    {
        let mut s = String::new();
        push_char(&mut s, '[');
        match self {
            Link::ArtifactType(x) => {
                push_i32(&mut s, *x);
                s.append("](/artifact_types/");
                push_i32(&mut s, *x);
            },
            Link::ExecutionType(x) => {
                push_i32(&mut s, *x);
                s.append("](/execution_types/");
                push_i32(&mut s, *x);
            },
            Link::ContextType(x) => {
                push_i32(&mut s, *x);
                s.append("](/context_types/");
                push_i32(&mut s, *x);
            },
        }
        push_char(&mut s, ')');
        proof {
            assert(s@ =~= link_markdown(*self));
        }
        s
    }
}

} // verus!
