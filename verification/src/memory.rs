//! Replies to calls that a process makes at most once.

use vstd::prelude::*;
use crate::driver::{Call, Reply};
use crate::sys::{CUVIDDECODECAPS, NvEncodeApiFunctionList};

verus! {

/// What is kept of a reply.
pub struct Kept {
    pub load_error: Option<String>,
    pub status: i32,
    pub error_status: i32,
    pub error_text: Option<String>,
    pub table: NvEncodeApiFunctionList,
}

/// The replies that are kept: to the call that brings the driver up, and to the one
/// that fetches the table of encode entry points.
pub struct CallMemory {
    init: Option<Kept>,
    table: Option<Kept>,
}

/// What is kept of a reply.
pub open spec fn kept_of(reply: Reply) -> Kept {
    Kept {
        load_error: reply.load_error,
        status: reply.status,
        error_status: reply.error_status,
        error_text: reply.error_text,
        table: reply.table,
    }
}

/// Whether everything that is not kept of a reply is as in a call that wrote nothing.
pub open spec fn rest_is_blank(reply: Reply) -> bool {
    &&& reply.handle == 0
    &&& reply.number == 0
    &&& reply.count == 0
    &&& reply.size == 0
    &&& reply.pitch == 0
    &&& reply.text is None
    &&& reply.bytes@.len() == 0
    &&& reply.guids@.len() == 0
    &&& reply.caps == CUVIDDECODECAPS::zeroed()
    &&& forall|i: int| 0 <= i < 3584 ==> reply.config.bytes@[i] == 0
}

fn copy_text(text: &Option<String>) -> (r: Option<String>)
    ensures
        r == *text,
{
    match text {
        Some(t) => Some(t.clone()),
        None => None,
    }
}

fn keep(reply: &Reply) -> (k: Kept)
    ensures
        k == kept_of(*reply),
{
    Kept {
        load_error: copy_text(&reply.load_error),
        status: reply.status,
        error_status: reply.error_status,
        error_text: copy_text(&reply.error_text),
        table: reply.table,
    }
}

fn give(k: &Kept) -> (reply: Reply)
    ensures
        kept_of(reply) == *k,
        rest_is_blank(reply),
{
    let blank = Reply::new();
    Reply {
        load_error: copy_text(&k.load_error),
        status: k.status,
        error_status: k.error_status,
        error_text: copy_text(&k.error_text),
        table: k.table,
        ..blank
    }
}

impl CallMemory {
    /// What is kept for a call.
    pub closed spec fn kept(self, call: Call) -> Option<Kept> {
        match call {
            Call::CuInit { .. } => self.init,
            Call::NvEncodeApiCreateInstance { once: true, .. } => self.table,
            _ => None,
        }
    }

    /// Nothing is kept yet.
    pub fn new() -> (m: Self)
        ensures
            forall|call: Call| #[trigger] m.kept(call) is None,
    {
        CallMemory { init: None, table: None }
    }

    /// The reply that is kept for a call, with nothing in it but what is kept.
    pub fn recall(&self, call: &Call) -> (r: Option<Reply>)
        ensures
            match r {
                Some(reply) => self.kept(*call) == Some(kept_of(reply)) && rest_is_blank(reply),
                None => self.kept(*call) is None,
            },
    {
        match call {
            Call::CuInit { .. } => match &self.init {
                Some(k) => Some(give(k)),
                None => None,
            },
            Call::NvEncodeApiCreateInstance { once: true, .. } => match &self.table {
                Some(k) => Some(give(k)),
                None => None,
            },
            _ => None,
        }
    }

    /// Keeps the reply to a call that is made at most once, unless there is one
    /// already. What is kept for another call stays as it is, unless the two calls
    /// stand for the same one.
    pub fn remember(&mut self, call: &Call, reply: &Reply)
        ensures
            forall|other: Call| #[trigger]
                final(self).kept(other) == (if same_slot(*call, other) && old(self).kept(
                    other,
                ) is None {
                    Some(kept_of(*reply))
                } else {
                    old(self).kept(other)
                }),
    {
        match call {
            Call::CuInit { .. } => {
                if self.init.is_none() {
                    self.init = Some(keep(reply));
                }
            },
            Call::NvEncodeApiCreateInstance { once: true, .. } => {
                if self.table.is_none() {
                    self.table = Some(keep(reply));
                }
            },
            _ => {},
        }
    }
}

/// Calls that stand for the same one have one reply between them, and nothing is ever
/// kept for a call that may be made again.
pub proof fn one_reply_is_kept_for_each_slot(m: CallMemory, a: Call, b: Call)
    ensures
        same_slot(a, b) ==> m.kept(a) == m.kept(b),
        same_slot(a, a) == made_once(a),
        !made_once(a) ==> m.kept(a) is None,
{
}

/// Whether a process makes a call at most once.
pub fn is_made_once(call: &Call) -> (r: bool)
    ensures
        r == made_once(*call),
{
    match call {
        Call::CuInit { .. } => true,
        Call::NvEncodeApiCreateInstance { once, .. } => *once,
        _ => false,
    }
}

/// Whether two calls share what is kept: both bring the driver up, or both fetch the
/// table that a process fetches once.
pub open spec fn same_slot(a: Call, b: Call) -> bool {
    match (a, b) {
        (Call::CuInit { .. }, Call::CuInit { .. }) => true,
        (
            Call::NvEncodeApiCreateInstance { once: first, .. },
            Call::NvEncodeApiCreateInstance { once: second, .. },
        ) => first && second,
        _ => false,
    }
}

/// Whether a process makes a call at most once.
pub open spec fn made_once(call: Call) -> bool {
    match call {
        Call::CuInit { .. } => true,
        Call::NvEncodeApiCreateInstance { once, .. } => once,
        _ => false,
    }
}

/// What is kept of a reply is all of it that those who make the call go by: its status, why
/// the driver is not loaded, the driver's words for a failure, and the table.
pub proof fn kept_reply_is_the_reply(a: Reply, b: Reply)
    ensures
        kept_of(a) == kept_of(b) <==> a.load_error == b.load_error && a.status == b.status
            && a.error_status == b.error_status && a.error_text == b.error_text && a.table
            == b.table,
{
}

/// A process brings the driver up once and fetches the encoders' table once. The two have
/// nothing to do with each other, and no other call is made only once.
pub proof fn two_calls_are_made_once(a: Call, b: Call)
    ensures
        made_once(a) <==> a is CuInit || (a matches Call::NvEncodeApiCreateInstance { once, .. }
            && once),
        same_slot(a, b) ==> made_once(a) && made_once(b) && (a is CuInit <==> b is CuInit),
        made_once(a) && made_once(b) && (a is CuInit <==> b is CuInit) ==> same_slot(a, b),
{
}

} // verus!
