//! Laws of the session lifecycle, stated over the same transition functions
//! the entry points are proved against.  An event stands for one successful
//! entry of the corresponding operation: a validated randomness request, a
//! consumption of whatever buffer the source published, or a mint attempt
//! (which changes nothing when the session is not redeemable).

use vstd::prelude::*;
use crate::consume_randomness::consume_transition;
use crate::ids::{is_zero_bytes, AccountId};
use crate::mint_reward::mint_transition;
use crate::request_randomness::request_transition;
use crate::state::{Lootbox, UserState};

verus! {

/// One operation applied to a session.
pub enum SessionEvent {
    Requested,
    Consumed { buffer: [u8; 32], lootbox: Lootbox, payer: AccountId },
    MintAttempted,
}

/// The session after one event.
pub open spec fn session_step(s: UserState, ev: SessionEvent) -> UserState {
    match ev {
        SessionEvent::Requested => request_transition(s),
        SessionEvent::Consumed { buffer, lootbox, payer } => consume_transition(
            s,
            buffer,
            lootbox,
            payer,
        ),
        SessionEvent::MintAttempted => mint_transition(s),
    }
}

/// The session after a whole history of events.
pub open spec fn session_run(s0: UserState, evs: Seq<SessionEvent>) -> UserState
    decreases evs.len(),
{
    if evs.len() == 0 {
        s0
    } else {
        session_step(session_run(s0, evs.drop_last()), evs.last())
    }
}

/// Position `j` holds a randomness request that no mint attempt has followed.
pub open spec fn open_request_at(evs: Seq<SessionEvent>, j: int) -> bool {
    0 <= j < evs.len() && evs[j] is Requested && (forall|k: int|
        j < k < evs.len() ==> !(evs[k] is MintAttempted))
}

/// Law: starting from a session that is not redeemable, the session is
/// redeemable after a history exactly when some successful randomness
/// request in it has no mint attempt after it — redeemable holds only
/// strictly between a request and the next mint.
pub proof fn lemma_redeemable_window(s0: UserState, evs: Seq<SessionEvent>)
    requires
        !s0.redeemable,
    ensures
        session_run(s0, evs).redeemable <==> exists|j: int| open_request_at(evs, j),
    decreases evs.len(),
{
    if evs.len() == 0 {
        assert(forall|j: int| !open_request_at(evs, j));
    } else {
        let prefix = evs.drop_last();
        let last = evs.last();
        let n = evs.len() as int;
        lemma_redeemable_window(s0, prefix);
        assert(forall|j: int| 0 <= j < n - 1 ==> prefix[j] == evs[j]);
        match last {
            SessionEvent::Requested => {
                assert(open_request_at(evs, n - 1));
            },
            SessionEvent::Consumed { buffer, lootbox, payer } => {
                assert(session_run(s0, evs).redeemable == session_run(s0, prefix).redeemable);
                if exists|j: int| open_request_at(prefix, j) {
                    let j = choose|j: int| open_request_at(prefix, j);
                    assert(open_request_at(evs, j));
                } else {
                    assert(forall|j: int| open_request_at(evs, j) ==> open_request_at(prefix, j));
                }
            },
            SessionEvent::MintAttempted => {
                assert(!session_run(s0, evs).redeemable);
                assert forall|j: int| !open_request_at(evs, j) by {
                    if 0 <= j < n - 1 {
                        assert(j < n - 1 < n && evs[n - 1] is MintAttempted);
                    }
                }
            },
        }
    }
}

/// Law: consuming an all-zero buffer (the oracle has not fulfilled the
/// request) changes nothing in the session.
pub proof fn lemma_zero_buffer_no_op(
    s: UserState,
    buffer: [u8; 32],
    lootbox: Lootbox,
    payer: AccountId,
)
    requires
        is_zero_bytes(buffer@),
    ensures
        consume_transition(s, buffer, lootbox, payer) == s,
{
}

/// Law: consuming the same buffer twice against the same configuration and
/// payer changes the session only the first time.
pub proof fn lemma_consume_idempotent(
    s: UserState,
    buffer: [u8; 32],
    lootbox: Lootbox,
    payer: AccountId,
)
    ensures
        consume_transition(consume_transition(s, buffer, lootbox, payer), buffer, lootbox, payer)
            == consume_transition(s, buffer, lootbox, payer),
{
    let s1 = consume_transition(s, buffer, lootbox, payer);
    if is_zero_bytes(buffer@) {
    } else if buffer == s.result_buffer {
    } else {
        if s.result != crate::outcome::outcome_of(crate::outcome::u128_le_of(buffer@)) {
            assert(s1.result_buffer == buffer);
        } else {
            assert(s1.result_buffer == s.result_buffer);
            assert(consume_transition(s1, buffer, lootbox, payer) =~= s1);
        }
    }
}

} // verus!
