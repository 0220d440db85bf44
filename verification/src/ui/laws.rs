//! What holds of the dashboard's state over any run of operations.

use crate::docker::container::ContainerRecordView;
use crate::docker::request::Action;
use crate::ui::app::AppView;
use crate::ui::event::{applied, commanded, key_intent, CommandView, Intent, Key};
use vstd::arithmetic::div_mod::{
    lemma_fundamental_div_mod, lemma_fundamental_div_mod_converse_mod, lemma_mod_bound,
    lemma_small_mod,
};
use vstd::prelude::*;

verus! {

/// The state after the cursor has moved down `times` times.
pub open spec fn moved_down(v: AppView, times: nat) -> AppView
    decreases times,
{
    if times == 0 {
        v
    } else {
        moved_down(v, (times - 1) as nat).select_next()
    }
}

/// The state after the cursor has moved up `times` times.
pub open spec fn moved_up(v: AppView, times: nat) -> AppView
    decreases times,
{
    if times == 0 {
        v
    } else {
        moved_up(v, (times - 1) as nat).select_previous()
    }
}

/// Stepping a remainder up by one, and back to zero at `n`, is adding one
/// before taking the remainder.
proof fn lemma_step_up(x: int, n: int)
    requires
        n > 0,
    ensures
        ((x % n) + 1) % n == (x + 1) % n,
{
    let r = x % n;
    let q = x / n;
    lemma_fundamental_div_mod(x, n);
    lemma_mod_bound(x, n);
    assert(n * q == q * n) by (nonlinear_arith);
    if r + 1 < n {
        lemma_small_mod((r + 1) as nat, n as nat);
        lemma_fundamental_div_mod_converse_mod(x + 1, n, q, r + 1);
    } else {
        assert((q + 1) * n == q * n + n) by (nonlinear_arith);
        lemma_fundamental_div_mod_converse_mod(x + 1, n, q + 1, 0);
        lemma_fundamental_div_mod_converse_mod(r + 1, n, 1, 0);
    }
}

/// Stepping a remainder down by one, and from zero to `n - 1`, is
/// subtracting one before taking the remainder.
proof fn lemma_step_down(x: int, n: int)
    requires
        n > 0,
    ensures
        (if x % n > 0 {
            x % n - 1
        } else {
            n - 1
        }) == (x - 1) % n,
{
    let r = x % n;
    let q = x / n;
    lemma_fundamental_div_mod(x, n);
    lemma_mod_bound(x, n);
    assert(n * q == q * n) by (nonlinear_arith);
    if r > 0 {
        lemma_fundamental_div_mod_converse_mod(x - 1, n, q, r - 1);
    } else {
        assert((q - 1) * n == q * n - n) by (nonlinear_arith);
        lemma_fundamental_div_mod_converse_mod(x - 1, n, q - 1, n - 1);
    }
}

/// Moving down `times` times adds `times` to the cursor, modulo the number
/// of containers, and changes nothing else.
pub proof fn lemma_moved_down(v: AppView, times: nat)
    requires
        v.wf(),
        v.containers.len() >= 1,
    ensures
        moved_down(v, times) == (AppView {
            selection: Some((((v.selection->0 + times) as int) % (v.containers.len() as int)) as nat),
            ..v
        }),
    decreases times,
{
    let n = v.containers.len() as int;
    let i = v.selection->0 as int;
    if times == 0 {
        lemma_small_mod(i as nat, n as nat);
    } else {
        lemma_moved_down(v, (times - 1) as nat);
        lemma_mod_bound(i + times - 1, n);
        lemma_step_up(i + times - 1, n);
    }
}

/// Moving up `times` times subtracts `times` from the cursor, modulo the
/// number of containers, and changes nothing else.
pub proof fn lemma_moved_up(v: AppView, times: nat)
    requires
        v.wf(),
        v.containers.len() >= 1,
    ensures
        moved_up(v, times) == (AppView {
            selection: Some(((v.selection->0 - times) % (v.containers.len() as int)) as nat),
            ..v
        }),
    decreases times,
{
    let n = v.containers.len() as int;
    let i = v.selection->0 as int;
    if times == 0 {
        lemma_small_mod(i as nat, n as nat);
    } else {
        lemma_moved_up(v, (times - 1) as nat);
        lemma_mod_bound(i - (times - 1), n);
        lemma_step_down(i - (times - 1), n);
    }
}

/// With N containers, N >= 1, moving down N times brings the state back
/// to where it started, and so does moving up N times.
pub proof fn lemma_selection_cycles(v: AppView)
    requires
        v.wf(),
        v.containers.len() >= 1,
    ensures
        moved_down(v, v.containers.len()) == v,
        moved_up(v, v.containers.len()) == v,
{
    let n = v.containers.len() as int;
    let i = v.selection->0 as int;
    lemma_moved_down(v, v.containers.len());
    lemma_moved_up(v, v.containers.len());
    assert(1 * n + i == i + n && (-1) * n + i == i - n) by (nonlinear_arith);
    lemma_fundamental_div_mod_converse_mod(i + n, n, 1, i);
    lemma_fundamental_div_mod_converse_mod(i - n, n, -1, i);
}

/// With no containers, no number of moves changes the state: the cursor
/// stays nowhere.
pub proof fn lemma_empty_list_stays_unselected(v: AppView, times: nat)
    requires
        v.wf(),
        v.containers.len() == 0,
    ensures
        moved_down(v, times) == v,
        moved_up(v, times) == v,
        v.selection is None,
    decreases times,
{
    if times > 0 {
        lemma_empty_list_stays_unselected(v, (times - 1) as nat);
    }
}

/// Every operation keeps the state well formed.
pub proof fn lemma_operations_keep_wf(
    v: AppView,
    listed: Seq<ContainerRecordView>,
    action: Action,
    outcome: Result<(), Seq<char>>,
    relisted: Result<Seq<ContainerRecordView>, Seq<char>>,
    now: u64,
)
    requires
        v.wf(),
    ensures
        v.refreshed(listed).wf(),
        v.select_next().wf(),
        v.select_previous().wf(),
        v.begun(action, now).wf(),
        v.returned(outcome, now).wf(),
        v.completed(action, relisted, now).wf(),
        v.listed(relisted, now).wf(),
        v.delete_requested().wf(),
        v.delete_cancelled().wf(),
        v.delete_confirmed(now).wf(),
        v.status_cleared(now).wf(),
        v.quit_requested().wf(),
{
    if v.containers.len() > 0 {
        lemma_mod_bound((v.selection->0 + 1) as int, v.containers.len() as int);
    }
}

/// After a listing the cursor stands nowhere exactly when the list is
/// empty, and else on a container of the list, wherever it stood before.
pub proof fn lemma_refresh_selection(v: AppView, listed: Seq<ContainerRecordView>)
    ensures
        v.refreshed(listed).selection is None <==> listed.len() == 0,
        v.refreshed(listed).selection matches Some(i) ==> i < listed.len(),
        v.refreshed(listed).containers == listed,
        v.refreshed(listed).status == v.status,
        v.refreshed(listed).show_delete_confirm == v.show_delete_confirm,
{
}

/// A cursor on the last container moves to the new last container when a
/// listing comes back shorter, as long as it holds a container at all.
pub proof fn lemma_refresh_shrinks_to_last(v: AppView, listed: Seq<ContainerRecordView>)
    requires
        v.containers.len() >= 1,
        v.selection == Some((v.containers.len() - 1) as nat),
        0 < listed.len() < v.containers.len(),
    ensures
        v.refreshed(listed).selection == Some((listed.len() - 1) as nat),
{
}

/// Once a delete is confirmed the confirmation mode is left, and it stays
/// left through the removal, whether the call fails, the listing after it
/// fails, or both succeed.
pub proof fn lemma_confirm_leaves_confirmation(
    v: AppView,
    outcome: Result<(), Seq<char>>,
    listed: Result<Seq<ContainerRecordView>, Seq<char>>,
    confirmed_at: u64,
    returned_at: u64,
    listed_at: u64,
)
    ensures
        !v.delete_confirmed(confirmed_at).show_delete_confirm,
        !v.delete_confirmed(confirmed_at).returned(outcome, returned_at).show_delete_confirm,
        !v.delete_confirmed(confirmed_at).returned(outcome, returned_at).completed(
            Action::Remove,
            listed,
            listed_at,
        ).show_delete_confirm,
{
}

/// Asking for a delete with the cursor nowhere changes nothing.
pub proof fn lemma_delete_needs_selection(v: AppView)
    requires
        v.selection is None,
    ensures
        v.delete_requested() == v,
{
}

/// When an action's success message is shown, the containers are already
/// those of the listing that followed the call.
pub proof fn lemma_done_follows_refresh(
    v: AppView,
    action: Action,
    listed: Seq<ContainerRecordView>,
    now: u64,
)
    ensures
        v.completed(action, Ok(listed), now).containers == listed,
        v.completed(action, Ok(listed), now).status_text() == Some(action.done_text()),
        v.completed(action, Ok(listed), now) == v.refreshed(listed).with_status(
            action.done_text(),
            now,
        ),
{
}

/// Clearing the status twice at one time is clearing it once.
pub proof fn lemma_clear_status_idempotent(v: AppView, now: u64)
    ensures
        v.status_cleared(now).status_cleared(now) == v.status_cleared(now),
{
}

/// While a delete waits for confirmation, a key that neither confirms nor
/// cancels changes nothing and asks nothing of the loop.
pub proof fn lemma_confirmation_freezes_keys(v: AppView, key: Key, now: u64)
    requires
        v.show_delete_confirm,
        key != Key::Esc,
        key != Key::Char('y'),
        key != Key::Char('Y'),
        key != Key::Char('n'),
        key != Key::Char('N'),
    ensures
        key_intent(true, key) == Intent::Ignore,
        applied(v, key_intent(v.show_delete_confirm, key), now) == v,
        commanded(v, key_intent(v.show_delete_confirm, key)) == CommandView::Nothing,
{
}

/// Cancelling a delete leaves the confirmation mode, asks nothing of the
/// runtime and changes nothing else.
pub proof fn lemma_cancel_only_leaves_mode(v: AppView, now: u64)
    ensures
        applied(v, Intent::CancelDelete, now) == (AppView { show_delete_confirm: false, ..v }),
        commanded(v, Intent::CancelDelete) == CommandView::Nothing,
{
}

/// A call is asked of the runtime only for the container under the
/// cursor, and only where that container has an identifier.
pub proof fn lemma_calls_name_the_selected(v: AppView, intent: Intent)
    ensures
        match commanded(v, intent) {
            CommandView::Call(request) => v.selected_id() == Some(request.id),
            _ => true,
        },
{
}

/// A listing that fails outside an action changes the status message and
/// nothing else; one that succeeds leaves the status message as it was.
pub proof fn lemma_failed_listing_only_sets_status(
    v: AppView,
    description: Seq<char>,
    listed: Seq<ContainerRecordView>,
    now: u64,
)
    ensures
        v.listed(Err(description), now) == (AppView {
            status: v.with_status(description, now).status,
            ..v
        }),
        v.listed(Err(description), now).status_text() == Some(description),
        v.listed(Ok(listed), now) == v.refreshed(listed),
        v.listed(Ok(listed), now).status == v.status,
{
}

} // verus!
