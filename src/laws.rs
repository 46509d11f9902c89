use vstd::prelude::*;

use crate::document::empty_slots;
use crate::error::NotificationError;
use crate::session::{
    after_successes, initial_run, planned, run_after, step, ActionView, RunView, Stage,
};
use crate::template::{template_for, Template};

verus! {

/// Slots `0..i` hold the matching field, the others are empty.
pub open spec fn bound_prefix(fields: Seq<Seq<char>>, i: nat) -> Seq<Seq<char>> {
    Seq::new(fields.len(), |j: int| if j < i { fields[j] } else { Seq::<char>::empty() })
}

/// How many slots are bound after `k` successful steps on `n` fields.
pub open spec fn bound_after(n: nat, k: nat) -> nat {
    if k == 0 {
        0
    } else if k - 1 <= n {
        (k - 1) as nat
    } else {
        n
    }
}

/// One more success is one more step at the end.
proof fn lemma_after_successes_last(v: RunView, k: nat)
    ensures
        after_successes(v, k + 1) == step(after_successes(v, k), true),
    decreases k,
{
    if k > 0 {
        lemma_after_successes_last(step(v, true), (k - 1) as nat);
        assert(after_successes(v, k + 1) == after_successes(step(v, true), k));
    }
}

/// A failed attempt stays as it is, whatever outcomes follow.
proof fn lemma_failed_is_final(v: RunView, outcomes: Seq<bool>)
    requires
        v.stage is Failed,
    ensures
        run_after(v, outcomes) == v,
    decreases outcomes.len(),
{
    if outcomes.len() > 0 {
        lemma_failed_is_final(step(v, outcomes[0]), outcomes.drop_first());
    }
}

/// Where an attempt stands after `k` host steps in a row succeeded: the
/// layout is loaded after one, one field is bound per step after that, then
/// the notification is constructed, then submitted, and it stays submitted.
pub proof fn lemma_happy_path(fields: Seq<Seq<char>>, t: Template, k: nat)
    requires
        template_for(fields.len()) == Some(t),
    ensures
        ({
            let v = after_successes(initial_run(fields, t), k);
            let n = fields.len();
            &&& v.fields == fields
            &&& v.template == t
            &&& v.bound == bound_after(n, k)
            &&& v.texts == bound_prefix(fields, v.bound)
            &&& k == 0 ==> v.stage == Stage::Unbuilt
            &&& 1 <= k <= n ==> v.stage == Stage::TemplateLoaded
            &&& k == n + 1 ==> v.stage == Stage::SlotsBound
            &&& k == n + 2 ==> v.stage == Stage::Constructed
            &&& k >= n + 3 ==> v.stage == Stage::Submitted
        }),
    decreases k,
{
    let init = initial_run(fields, t);
    let n = fields.len();
    if k == 0 {
        assert(empty_slots(n) =~= bound_prefix(fields, 0));
    } else {
        let j = (k - 1) as nat;
        lemma_happy_path(fields, t, j);
        lemma_after_successes_last(init, j);
        let u = after_successes(init, j);
        if 1 <= k && k - 1 < n && j >= 1 {
            assert(u.texts.update(u.bound as int, fields[u.bound as int]) =~= bound_prefix(
                fields,
                u.bound + 1,
            ));
        }
    }
}

/// Fields are bound in order: when every host step succeeds, step `k` (for
/// `k` from 1 to the number of fields) binds field `k - 1` to slot `k - 1`, so
/// the title goes to slot 0 and the body to slot 1; once all are bound, slot
/// `i` holds field `i`.
pub proof fn law_fields_bound_in_order(fields: Seq<Seq<char>>, t: Template)
    requires
        template_for(fields.len()) == Some(t),
    ensures
        forall|k: nat|
            1 <= k <= fields.len() ==> planned(#[trigger] after_successes(initial_run(fields, t), k))
                == ActionView::BindSlot((k - 1) as nat, fields[k - 1]),
        after_successes(initial_run(fields, t), fields.len() + 1).stage == Stage::SlotsBound,
        after_successes(initial_run(fields, t), fields.len() + 1).texts == fields,
{
    assert forall|k: nat| 1 <= k <= fields.len() implies planned(
        #[trigger] after_successes(initial_run(fields, t), k),
    ) == ActionView::BindSlot((k - 1) as nat, fields[k - 1]) by {
        lemma_happy_path(fields, t, k);
    }
    lemma_happy_path(fields, t, fields.len() + 1);
    assert(bound_prefix(fields, fields.len()) =~= fields);
}

/// Each attempt whose host steps succeed asks for exactly one submission,
/// after the layout is loaded, every field bound and the notification
/// constructed, and then ends in success. Since `ToastRun::new` starts every
/// attempt in `initial_run` of its own fields, whatever attempts came before,
/// a second attempt with the same fields submits a second notification:
/// nothing is deduplicated or cached.
pub proof fn law_each_attempt_submits_once(fields: Seq<Seq<char>>, t: Template)
    requires
        template_for(fields.len()) == Some(t),
    ensures
        forall|k: nat|
            (planned(#[trigger] after_successes(initial_run(fields, t), k)) == ActionView::Submit)
                <==> k == fields.len() + 2,
        planned(after_successes(initial_run(fields, t), fields.len() + 3)) == ActionView::Finished(
            Ok(()),
        ),
{
    assert forall|k: nat|
        (planned(#[trigger] after_successes(initial_run(fields, t), k)) == ActionView::Submit)
            <==> k == fields.len() + 2 by {
        lemma_happy_path(fields, t, k);
    }
    lemma_happy_path(fields, t, fields.len() + 3);
}

/// When the host cannot supply the layout's document, the attempt ends with
/// `TemplateUnavailable` and asks for no other step, a submission least of
/// all, whatever the host reports afterwards.
pub proof fn law_template_failure_never_submits(
    fields: Seq<Seq<char>>,
    t: Template,
    later: Seq<bool>,
)
    requires
        template_for(fields.len()) == Some(t),
    ensures
        step(initial_run(fields, t), false).stage == Stage::Failed(
            NotificationError::TemplateUnavailable,
        ),
        planned(run_after(step(initial_run(fields, t), false), later)) == ActionView::Finished(
            Err(NotificationError::TemplateUnavailable),
        ),
{
    lemma_failed_is_final(step(initial_run(fields, t), false), later);
}

} // verus!
