//! What a codec hands out: what is ready, in order, and then word of the end.

use vstd::prelude::*;
use crate::error::ErrorView;

verus! {

/// What is handed out where `pending` is ready.
pub open spec fn received<T>(pending: Seq<T>, flushed: bool) -> Result<T, ErrorView> {
    if pending.len() > 0 {
        Ok(pending[0])
    } else if flushed {
        Err(ErrorView::Eof)
    } else {
        Err(ErrorView::NeedMore)
    }
}

/// What is ready after the next item has been asked for `n` times.
pub open spec fn after_receiving<T>(pending: Seq<T>, n: nat) -> Seq<T>
    decreases n,
{
    if n == 0 {
        pending
    } else {
        let before = after_receiving(pending, (n - 1) as nat);
        if before.len() > 0 {
            before.drop_first()
        } else {
            before
        }
    }
}

proof fn lemma_after_receiving<T>(pending: Seq<T>, n: nat)
    ensures
        after_receiving(pending, n) =~= pending.skip(
            if n < pending.len() {
                n as int
            } else {
                pending.len() as int
            },
        ),
    decreases n,
{
    if n > 0 {
        lemma_after_receiving(pending, (n - 1) as nat);
    }
}

/// What is ready comes out once each and in order. After the last item a stream that
/// was flushed is at its end, for good; another one needs more input.
pub proof fn items_come_out_in_order<T>(pending: Seq<T>, flushed: bool, n: nat)
    ensures
        received(after_receiving(pending, n), flushed) == (if n < pending.len() {
            Ok::<T, ErrorView>(pending[n as int])
        } else if flushed {
            Err(ErrorView::Eof)
        } else {
            Err(ErrorView::NeedMore)
        }),
{
    lemma_after_receiving(pending, n);
}

} // verus!
