//! Decisions the app makes around the device: which buttons may be
//! assigned, what to push to or blank on which button, what the tray shows,
//! and how the startup connection retries are paced.

use vstd::prelude::*;
use crate::config::{ButtonAssignment, Metric};
use crate::device::SCREEN_KEY_COUNT;
use crate::text::{decimal_digits, signed_decimal, text_eq, u64_text, i64_text};
use crate::usage::{PollError, poll_error_text};

verus! {

/// The metric of button `i`: what is assigned there, or nothing for a
/// button past the end of the list.
pub open spec fn metric_at(buttons: Seq<ButtonAssignment>, i: int) -> Metric {
    if 0 <= i < buttons.len() {
        buttons[i].metric
    } else {
        Metric::Unassigned
    }
}

/// Grows the list of button assignments with unassigned buttons until it has
/// a slot at `index`.
pub fn ensure_button_slot(buttons: &mut Vec<ButtonAssignment>, index: usize)
    requires
        index < usize::MAX,
    ensures
        final(buttons).len() == if old(buttons).len() > index {
            old(buttons).len() as int
        } else {
            index + 1
        },
        forall|j: int| 0 <= j < old(buttons).len() ==> final(buttons)@[j] == old(buttons)@[j],
        forall|j: int|
            old(buttons).len() <= j < final(buttons).len() ==> (#[trigger] final(buttons)@[j]).metric
                == Metric::Unassigned,
{
    while buttons.len() <= index
        invariant
            index < usize::MAX,
            old(buttons).len() <= buttons.len(),
            buttons.len() <= if old(buttons).len() > index {
                old(buttons).len() as int
            } else {
                index + 1
            },
            forall|j: int| 0 <= j < old(buttons).len() ==> buttons@[j] == old(buttons)@[j],
            forall|j: int|
                old(buttons).len() <= j < buttons.len() ==> (#[trigger] buttons@[j]).metric
                    == Metric::Unassigned,
        decreases index + 1 - buttons.len(),
    {
        buttons.push(ButtonAssignment::default());
    }
}

/// Message for an assignment to a button that has no screen.
pub open spec fn no_screen_message(index: nat) -> Seq<char> {
    "button "@ + decimal_digits(index) + " has no screen (only buttons 0-"@ + decimal_digits(
        (SCREEN_KEY_COUNT - 1) as nat,
    ) + " do)"@
}

/// Only buttons `0..SCREEN_KEY_COUNT` have a screen; assigning any other
/// button fails loudly instead of silently never showing anything.
pub fn require_screen_button(index: usize) -> (checked: Result<(), String>)
    ensures
        checked is Err <==> index >= SCREEN_KEY_COUNT,
        checked matches Err(message) ==> message@ == no_screen_message(index as nat),
{
    if index >= SCREEN_KEY_COUNT {
        let message = String::from_str("button ").concat(u64_text(index as u64).as_str()).concat(
            " has no screen (only buttons 0-",
        ).concat(u64_text((SCREEN_KEY_COUNT - 1) as u64).as_str()).concat(" do)");
        return Err(message);
    }
    Ok(())
}

/// Assigns `metric` to button `index`, growing the list with unassigned
/// buttons where needed; a button without a screen is refused and the list
/// is left as it was.
pub fn assign_button_metric(
    buttons: &mut Vec<ButtonAssignment>,
    index: usize,
    metric: Metric,
) -> (assigned: Result<(), String>)
    ensures
        assigned is Err <==> index >= SCREEN_KEY_COUNT,
        assigned matches Err(message) ==> message@ == no_screen_message(index as nat)
            && final(buttons)@ == old(buttons)@,
        assigned is Ok ==> {
            &&& final(buttons).len() == if old(buttons).len() > index {
                old(buttons).len() as int
            } else {
                index + 1
            }
            &&& forall|j: int|
                #![trigger metric_at(final(buttons)@, j)]
                metric_at(final(buttons)@, j) == if j == index {
                    metric
                } else {
                    metric_at(old(buttons)@, j)
                }
        },
{
    let checked = require_screen_button(index);
    match checked {
        Err(message) => Err(message),
        Ok(()) => {
            ensure_button_slot(buttons, index);
            buttons.set(index, ButtonAssignment { metric });
            Ok(())
        },
    }
}

/// The screen buttons among the first `n` that had a metric in `old` and
/// have none in `new`, in increasing order.
pub open spec fn released_upto(
    old_buttons: Seq<ButtonAssignment>,
    new_buttons: Seq<ButtonAssignment>,
    n: nat,
) -> Seq<u8>
    decreases n,
{
    if n == 0 {
        Seq::empty()
    } else {
        let rest = released_upto(old_buttons, new_buttons, (n - 1) as nat);
        if metric_at(old_buttons, n - 1) != Metric::Unassigned && metric_at(new_buttons, n - 1)
            == Metric::Unassigned {
            rest.push((n - 1) as u8)
        } else {
            rest
        }
    }
}

/// The buttons among the first `n` that have a metric assigned, in
/// increasing order.
pub open spec fn assigned_upto(buttons: Seq<ButtonAssignment>, n: nat) -> Seq<u8>
    decreases n,
{
    if n == 0 {
        Seq::empty()
    } else {
        let rest = assigned_upto(buttons, (n - 1) as nat);
        if metric_at(buttons, n - 1) != Metric::Unassigned {
            rest.push((n - 1) as u8)
        } else {
            rest
        }
    }
}

/// Screen buttons that an assignment change released: assigned a metric
/// before, nothing now. Their screens get blanked, so that unassigning a
/// button looks unassigned.
pub fn released_buttons(
    old_buttons: &Vec<ButtonAssignment>,
    new_buttons: &Vec<ButtonAssignment>,
) -> (released: Vec<u8>)
    ensures
        released@ == released_upto(old_buttons@, new_buttons@, SCREEN_KEY_COUNT as nat),
{
    let mut released: Vec<u8> = Vec::new();
    let mut i: usize = 0;
    while i < SCREEN_KEY_COUNT
        invariant
            i <= SCREEN_KEY_COUNT,
            released@ == released_upto(old_buttons@, new_buttons@, i as nat),
        decreases SCREEN_KEY_COUNT - i,
    {
        let was = if i < old_buttons.len() {
            old_buttons[i].metric
        } else {
            Metric::Unassigned
        };
        let now = if i < new_buttons.len() {
            new_buttons[i].metric
        } else {
            Metric::Unassigned
        };
        if was != Metric::Unassigned && now == Metric::Unassigned {
            released.push(i as u8);
        }
        i = i + 1;
    }
    released
}

/// Screen buttons that currently show a metric; they get blanked when the
/// app quits, so the device honestly shows "not running".
pub fn assigned_screen_buttons(buttons: &Vec<ButtonAssignment>) -> (assigned: Vec<u8>)
    ensures
        assigned@ == assigned_upto(buttons@, SCREEN_KEY_COUNT as nat),
{
    let mut assigned: Vec<u8> = Vec::new();
    let mut i: usize = 0;
    while i < SCREEN_KEY_COUNT && i < buttons.len()
        invariant
            i <= SCREEN_KEY_COUNT,
            i <= buttons.len(),
            assigned@ == assigned_upto(buttons@, i as nat),
        decreases SCREEN_KEY_COUNT - i,
    {
        if buttons[i].metric != Metric::Unassigned {
            assigned.push(i as u8);
        }
        i = i + 1;
    }
    proof {
        lemma_assigned_past_end(buttons@, i as nat, SCREEN_KEY_COUNT as nat);
    }
    assigned
}

/// Buttons past the end of the list add nothing to `assigned_upto`.
proof fn lemma_assigned_past_end(buttons: Seq<ButtonAssignment>, from: nat, n: nat)
    requires
        from <= n,
        from >= buttons.len() || from == n,
    ensures
        assigned_upto(buttons, n) == assigned_upto(buttons, from),
    decreases n - from,
{
    if from < n {
        lemma_assigned_past_end(buttons, from, (n - 1) as nat);
    }
}

/// Only screen buttons are ever blanked, each at most once and in
/// increasing order, and a screen button is blanked exactly when the change
/// took its metric away.
pub proof fn lemma_released_members(
    old_buttons: Seq<ButtonAssignment>,
    new_buttons: Seq<ButtonAssignment>,
    n: nat,
)
    requires
        n <= 256,
    ensures
        forall|k: int|
            0 <= k < released_upto(old_buttons, new_buttons, n).len() ==> (#[trigger] released_upto(
                old_buttons,
                new_buttons,
                n,
            )[k]) < n,
        forall|k: int, l: int|
            0 <= k < l < released_upto(old_buttons, new_buttons, n).len() ==> (#[trigger] released_upto(
                old_buttons,
                new_buttons,
                n,
            )[k]) < (#[trigger] released_upto(old_buttons, new_buttons, n)[l]),
        forall|i: int|
            0 <= i < n ==> (released_upto(old_buttons, new_buttons, n).contains(#[trigger] (i as u8))
                <==> (metric_at(old_buttons, i) != Metric::Unassigned && metric_at(new_buttons, i)
                == Metric::Unassigned)),
    decreases n,
{
    if n > 0 {
        lemma_released_members(old_buttons, new_buttons, (n - 1) as nat);
        let rest = released_upto(old_buttons, new_buttons, (n - 1) as nat);
        let all = released_upto(old_buttons, new_buttons, n);
        assert forall|i: int| 0 <= i < n implies (all.contains(#[trigger] (i as u8)) <==> (
        metric_at(old_buttons, i) != Metric::Unassigned && metric_at(new_buttons, i)
            == Metric::Unassigned)) by {
            if i < n - 1 {
                if all.contains(i as u8) {
                    let k = choose|k: int| 0 <= k < all.len() && all[k] == i as u8;
                    if k < rest.len() {
                        assert(rest[k] == i as u8);
                    }
                }
                if rest.contains(i as u8) {
                    let k = choose|k: int| 0 <= k < rest.len() && rest[k] == i as u8;
                    assert(all[k] == i as u8);
                }
            } else {
                if all.contains(i as u8) {
                    let k = choose|k: int| 0 <= k < all.len() && all[k] == i as u8;
                    if k < rest.len() {
                        assert(rest[k] == i as u8);
                    }
                }
                if metric_at(old_buttons, i) != Metric::Unassigned && metric_at(new_buttons, i)
                    == Metric::Unassigned {
                    assert(all[all.len() - 1] == i as u8);
                }
            }
        }
    }
}

/// Resetting every button to unassigned blanks exactly the screen buttons
/// that were showing a metric, the ones quitting would blank.
pub proof fn lemma_reset_releases_assigned(old_buttons: Seq<ButtonAssignment>, n: nat)
    ensures
        released_upto(old_buttons, Seq::<ButtonAssignment>::empty(), n) == assigned_upto(
            old_buttons,
            n,
        ),
    decreases n,
{
    if n > 0 {
        lemma_reset_releases_assigned(old_buttons, (n - 1) as nat);
    }
}

/// Taking the metric off one screen button (and changing nothing else)
/// blanks exactly that button, and only when it was showing something.
pub proof fn lemma_unassign_releases_only_that_button(
    old_buttons: Seq<ButtonAssignment>,
    new_buttons: Seq<ButtonAssignment>,
    index: nat,
)
    requires
        index < SCREEN_KEY_COUNT,
        forall|j: int|
            #![trigger metric_at(new_buttons, j)]
            metric_at(new_buttons, j) == if j == index {
                Metric::Unassigned
            } else {
                metric_at(old_buttons, j)
            },
    ensures
        released_upto(old_buttons, new_buttons, SCREEN_KEY_COUNT as nat) == if metric_at(
            old_buttons,
            index as int,
        ) != Metric::Unassigned {
            seq![index as u8]
        } else {
            Seq::<u8>::empty()
        },
{
    lemma_released_single(old_buttons, new_buttons, index, SCREEN_KEY_COUNT as nat);
}

proof fn lemma_released_single(
    old_buttons: Seq<ButtonAssignment>,
    new_buttons: Seq<ButtonAssignment>,
    index: nat,
    n: nat,
)
    requires
        forall|j: int|
            #![trigger metric_at(new_buttons, j)]
            metric_at(new_buttons, j) == if j == index {
                Metric::Unassigned
            } else {
                metric_at(old_buttons, j)
            },
    ensures
        released_upto(old_buttons, new_buttons, n) == if index < n && metric_at(
            old_buttons,
            index as int,
        ) != Metric::Unassigned {
            seq![index as u8]
        } else {
            Seq::<u8>::empty()
        },
    decreases n,
{
    if n > 0 {
        lemma_released_single(old_buttons, new_buttons, index, (n - 1) as nat);
        assert(metric_at(new_buttons, n - 1) == if n - 1 == index {
            Metric::Unassigned
        } else {
            metric_at(old_buttons, n - 1)
        });
        if index == n - 1 && metric_at(old_buttons, index as int) != Metric::Unassigned {
            assert(Seq::<u8>::empty().push((n - 1) as u8) =~= seq![index as u8]);
        }
    }
}

/// Short label shown above the percentage.
pub open spec fn metric_label_text(metric: Metric) -> Seq<char> {
    match metric {
        Metric::Session => "5H"@,
        Metric::Weekly => "7D"@,
        Metric::Budget => "BUD"@,
        Metric::Unassigned => ""@,
    }
}

/// Short label shown above the percentage, so that buttons showing
/// different metrics are visually distinguishable.
pub fn metric_label(metric: Metric) -> (label: &'static str)
    ensures
        label@ == metric_label_text(metric),
{
    match metric {
        Metric::Session => "5H",
        Metric::Weekly => "7D",
        Metric::Budget => "BUD",
        Metric::Unassigned => "",
    }
}

/// `found` is the index of the first entry of `kinds` that reads `kind`, or
/// `None` when no entry does.
pub open spec fn first_of_kind(kinds: Seq<String>, kind: Seq<char>, found: Option<usize>) -> bool {
    match found {
        Some(i) => i < kinds.len() && kinds[i as int]@ == kind && forall|j: int|
            0 <= j < i ==> (#[trigger] kinds[j])@ != kind,
        None => forall|j: int| 0 <= j < kinds.len() ==> (#[trigger] kinds[j])@ != kind,
    }
}

fn find_kind(kinds: &Vec<String>, kind: &str) -> (found: Option<usize>)
    ensures
        first_of_kind(kinds@, kind@, found),
{
    let mut i: usize = 0;
    while i < kinds.len()
        invariant
            i <= kinds.len(),
            forall|j: int| 0 <= j < i ==> (#[trigger] kinds@[j])@ != kind@,
        decreases kinds.len() - i,
    {
        if text_eq(kinds[i].as_str(), kind) {
            return Some(i);
        }
        i = i + 1;
    }
    None
}

/// Positions of the session limit (kind `session`) and of the weekly limit
/// (kind `weekly_all`) among the limit kinds of a usage snapshot: the first
/// entry of each kind.
pub fn session_and_weekly(kinds: &Vec<String>) -> (found: (Option<usize>, Option<usize>))
    ensures
        first_of_kind(kinds@, "session"@, found.0),
        first_of_kind(kinds@, "weekly_all"@, found.1),
{
    let session = find_kind(kinds, "session");
    let weekly = find_kind(kinds, "weekly_all");
    (session, weekly)
}

/// How a button is painted.
#[derive(Debug, Clone, Copy, PartialEq, Eq, Structural)]
pub enum PushStyle {
    /// The metric is assigned but not active: an "OFF" button.
    Disabled,
    /// A gauge of the metric's current percentage.
    Gauge,
}

/// One image to push: to button `index`, for `metric`, painted as `style`.
#[derive(Debug, Clone, Copy, PartialEq, Eq, Structural)]
pub struct ButtonPush {
    pub index: u8,
    pub metric: Metric,
    pub style: PushStyle,
}

/// What a button showing `metric` gets: the budget, when budget tracking is
/// off, an "OFF" button; the session and weekly limits a gauge when the
/// snapshot has them; the budget, when on, a gauge; an unassigned button
/// nothing.
pub open spec fn push_style(
    metric: Metric,
    budget_enabled: bool,
    has_session: bool,
    has_weekly: bool,
) -> Option<PushStyle> {
    match metric {
        Metric::Budget => if budget_enabled {
            Some(PushStyle::Gauge)
        } else {
            Some(PushStyle::Disabled)
        },
        Metric::Session => if has_session {
            Some(PushStyle::Gauge)
        } else {
            None
        },
        Metric::Weekly => if has_weekly {
            Some(PushStyle::Gauge)
        } else {
            None
        },
        Metric::Unassigned => None,
    }
}

/// The pushes for the first `n` buttons, in button order.
pub open spec fn planned_upto(
    buttons: Seq<ButtonAssignment>,
    budget_enabled: bool,
    has_session: bool,
    has_weekly: bool,
    n: nat,
) -> Seq<ButtonPush>
    decreases n,
{
    if n == 0 {
        Seq::empty()
    } else {
        let rest = planned_upto(buttons, budget_enabled, has_session, has_weekly, (n - 1) as nat);
        let metric = metric_at(buttons, n - 1);
        match push_style(metric, budget_enabled, has_session, has_weekly) {
            Some(style) => rest.push(ButtonPush { index: (n - 1) as u8, metric, style }),
            None => rest,
        }
    }
}

/// The images to push for a usage snapshot: one per assigned screen button,
/// in button order. Buttons past the screen buttons have no screen and get
/// nothing.
pub fn plan_button_pushes(
    buttons: &Vec<ButtonAssignment>,
    budget_enabled: bool,
    has_session: bool,
    has_weekly: bool,
) -> (pushes: Vec<ButtonPush>)
    ensures
        pushes@ == planned_upto(
            buttons@,
            budget_enabled,
            has_session,
            has_weekly,
            SCREEN_KEY_COUNT as nat,
        ),
{
    let mut pushes: Vec<ButtonPush> = Vec::new();
    let mut i: usize = 0;
    while i < SCREEN_KEY_COUNT && i < buttons.len()
        invariant
            i <= SCREEN_KEY_COUNT,
            i <= buttons.len(),
            pushes@ == planned_upto(buttons@, budget_enabled, has_session, has_weekly, i as nat),
        decreases SCREEN_KEY_COUNT - i,
    {
        let metric = buttons[i].metric;
        let style = match metric {
            Metric::Budget => if budget_enabled {
                Some(PushStyle::Gauge)
            } else {
                Some(PushStyle::Disabled)
            },
            Metric::Session => if has_session {
                Some(PushStyle::Gauge)
            } else {
                None
            },
            Metric::Weekly => if has_weekly {
                Some(PushStyle::Gauge)
            } else {
                None
            },
            Metric::Unassigned => None,
        };
        match style {
            Some(style) => pushes.push(ButtonPush { index: i as u8, metric, style }),
            None => {},
        }
        i = i + 1;
    }
    proof {
        lemma_planned_past_end(
            buttons@,
            budget_enabled,
            has_session,
            has_weekly,
            i as nat,
            SCREEN_KEY_COUNT as nat,
        );
    }
    pushes
}

proof fn lemma_planned_past_end(
    buttons: Seq<ButtonAssignment>,
    budget_enabled: bool,
    has_session: bool,
    has_weekly: bool,
    from: nat,
    n: nat,
)
    requires
        from <= n,
        from >= buttons.len() || from == n,
    ensures
        planned_upto(buttons, budget_enabled, has_session, has_weekly, n) == planned_upto(
            buttons,
            budget_enabled,
            has_session,
            has_weekly,
            from,
        ),
    decreases n - from,
{
    if from < n {
        lemma_planned_past_end(buttons, budget_enabled, has_session, has_weekly, from, (n - 1) as nat);
    }
}

/// Each push goes to a screen button, at most one per button and in button
/// order; an unassigned button is never painted, and a budget button while
/// budget tracking is off is always painted "OFF".
pub proof fn lemma_plan_members(
    buttons: Seq<ButtonAssignment>,
    budget_enabled: bool,
    has_session: bool,
    has_weekly: bool,
    n: nat,
)
    requires
        n <= 256,
    ensures
        forall|k: int|
            0 <= k < planned_upto(buttons, budget_enabled, has_session, has_weekly, n).len() ==> {
                let push = #[trigger] planned_upto(
                    buttons,
                    budget_enabled,
                    has_session,
                    has_weekly,
                    n,
                )[k];
                &&& push.index < n
                &&& push.metric == metric_at(buttons, push.index as int)
                &&& push.metric != Metric::Unassigned
                &&& Some(push.style) == push_style(
                    push.metric,
                    budget_enabled,
                    has_session,
                    has_weekly,
                )
                &&& (push.metric == Metric::Budget && !budget_enabled) ==> push.style
                    == PushStyle::Disabled
            },
        forall|k: int, l: int|
            0 <= k < l < planned_upto(buttons, budget_enabled, has_session, has_weekly, n).len()
                ==> (#[trigger] planned_upto(
                buttons,
                budget_enabled,
                has_session,
                has_weekly,
                n,
            )[k]).index < (#[trigger] planned_upto(
                buttons,
                budget_enabled,
                has_session,
                has_weekly,
                n,
            )[l]).index,
    decreases n,
{
    if n > 0 {
        lemma_plan_members(buttons, budget_enabled, has_session, has_weekly, (n - 1) as nat);
    }
}

proof fn lemma_plan_contains(
    buttons: Seq<ButtonAssignment>,
    budget_enabled: bool,
    has_session: bool,
    has_weekly: bool,
    n: nat,
)
    requires
        n <= 256,
    ensures
        forall|i: int|
            0 <= i < n && push_style(metric_at(buttons, i), budget_enabled, has_session, has_weekly)
                is Some ==> planned_upto(buttons, budget_enabled, has_session, has_weekly, n).contains(
                ButtonPush {
                    index: i as u8,
                    metric: metric_at(buttons, i),
                    style: push_style(
                        metric_at(buttons, i),
                        budget_enabled,
                        has_session,
                        has_weekly,
                    )->0,
                },
            ),
    decreases n,
{
    if n > 0 {
        lemma_plan_contains(buttons, budget_enabled, has_session, has_weekly, (n - 1) as nat);
        let rest = planned_upto(buttons, budget_enabled, has_session, has_weekly, (n - 1) as nat);
        let all = planned_upto(buttons, budget_enabled, has_session, has_weekly, n);
        assert forall|i: int|
            0 <= i < n && push_style(metric_at(buttons, i), budget_enabled, has_session, has_weekly)
                is Some implies all.contains(
            ButtonPush {
                index: i as u8,
                metric: metric_at(buttons, i),
                style: push_style(metric_at(buttons, i), budget_enabled, has_session, has_weekly)->0,
            },
        ) by {
            let p = ButtonPush {
                index: i as u8,
                metric: metric_at(buttons, i),
                style: push_style(metric_at(buttons, i), budget_enabled, has_session, has_weekly)->0,
            };
            if i < n - 1 {
                let k = choose|k: int| 0 <= k < rest.len() && rest[k] == p;
                assert(all[k] == p);
            } else {
                assert(all[all.len() - 1] == p);
            }
        }
    }
}

/// Every one of the six screen buttons is painted as its metric asks: a
/// session or weekly button gets a gauge whenever the snapshot has that
/// limit, a budget button gets a gauge when budget tracking is on and an
/// "OFF" image when it is off. Conversely every planned image goes to one of
/// the six screen buttons, shows that button's metric in that style, and an
/// unassigned button or a limit missing from the snapshot gets nothing.
pub proof fn lemma_plan_paints_every_screen_button(
    buttons: Seq<ButtonAssignment>,
    budget_enabled: bool,
    has_session: bool,
    has_weekly: bool,
)
    ensures
        ({
            let plan = planned_upto(buttons, budget_enabled, has_session, has_weekly, 6);
            &&& forall|i: int|
                #![trigger metric_at(buttons, i)]
                0 <= i < 6 ==> {
                    &&& (metric_at(buttons, i) == Metric::Session && has_session) ==> plan.contains(
                        ButtonPush { index: i as u8, metric: Metric::Session, style: PushStyle::Gauge },
                    )
                    &&& (metric_at(buttons, i) == Metric::Weekly && has_weekly) ==> plan.contains(
                        ButtonPush { index: i as u8, metric: Metric::Weekly, style: PushStyle::Gauge },
                    )
                    &&& (metric_at(buttons, i) == Metric::Budget && budget_enabled) ==> plan.contains(
                        ButtonPush { index: i as u8, metric: Metric::Budget, style: PushStyle::Gauge },
                    )
                    &&& (metric_at(buttons, i) == Metric::Budget && !budget_enabled)
                        ==> plan.contains(
                        ButtonPush {
                            index: i as u8,
                            metric: Metric::Budget,
                            style: PushStyle::Disabled,
                        },
                    )
                }
            &&& forall|k: int|
                0 <= k < plan.len() ==> {
                    let push = #[trigger] plan[k];
                    &&& push.index < 6
                    &&& push.metric == metric_at(buttons, push.index as int)
                    &&& push.metric != Metric::Unassigned
                    &&& push.metric == Metric::Session ==> has_session && push.style
                        == PushStyle::Gauge
                    &&& push.metric == Metric::Weekly ==> has_weekly && push.style
                        == PushStyle::Gauge
                    &&& push.metric == Metric::Budget ==> (push.style == PushStyle::Gauge
                        <==> budget_enabled)
                }
        }),
{
    lemma_plan_contains(buttons, budget_enabled, has_session, has_weekly, 6);
    lemma_plan_members(buttons, budget_enabled, has_session, has_weekly, 6);
    let plan = planned_upto(buttons, budget_enabled, has_session, has_weekly, 6);
    assert forall|k: int| 0 <= k < plan.len() implies {
        let push = #[trigger] plan[k];
        &&& push.metric == Metric::Session ==> has_session && push.style == PushStyle::Gauge
        &&& push.metric == Metric::Weekly ==> has_weekly && push.style == PushStyle::Gauge
        &&& push.metric == Metric::Budget ==> (push.style == PushStyle::Gauge <==> budget_enabled)
    } by {
        let push = plan[k];
        assert(Some(push.style) == push_style(push.metric, budget_enabled, has_session, has_weekly));
    }
}

/// A rate-limited poll waits exactly as long as the endpoint asked, and two
/// minutes when it did not say.
pub proof fn lemma_backoff_honours_retry_after(s: u64)
    ensures
        backoff_secs(Some(s)) == s,
        backoff_secs(None) == 120,
{
}

/// What the tray shows for one limit: its rounded percentage, or a dash
/// when the snapshot lacks it.
pub open spec fn tooltip_percent(percent: Option<i64>) -> Seq<char> {
    match percent {
        Some(p) => signed_decimal(p as int) + "%"@,
        None => "—"@,
    }
}

/// The tray tooltip for the rounded session and weekly percentages, under
/// the app's title.
pub open spec fn tooltip_text(title: Seq<char>, session: Option<i64>, weekly: Option<i64>) -> Seq<
    char,
> {
    title + "\nSession: "@ + tooltip_percent(session) + "\nWeekly: "@ + tooltip_percent(weekly)
}

fn percent_text(percent: Option<i64>) -> (text: String)
    ensures
        text@ == tooltip_percent(percent),
{
    match percent {
        Some(p) => i64_text(p).concat("%"),
        None => String::from_str("—"),
    }
}

/// The tray tooltip, mirroring the two official limits.
pub fn tray_tooltip(title: &str, session: Option<i64>, weekly: Option<i64>) -> (text: String)
    ensures
        text@ == tooltip_text(title@, session, weekly),
{
    String::from_str(title).concat("\nSession: ").concat(percent_text(session).as_str()).concat(
        "\nWeekly: ",
    ).concat(percent_text(weekly).as_str())
}

/// How many times to try connecting to the device right after launch: the
/// app can start before the OS has finished USB enumeration.
pub const STARTUP_CONNECT_ATTEMPTS: u32 = 8;

/// Seconds to wait between two startup connection attempts.
pub const STARTUP_CONNECT_RETRY_DELAY_SECS: u64 = 2;

/// What the startup connection loop does at a given attempt number.
#[derive(Debug, Clone, Copy, PartialEq, Eq, Structural)]
pub enum StartupStep {
    /// Try to connect (unless a poll already connected a device), after
    /// waiting `STARTUP_CONNECT_RETRY_DELAY_SECS` when `wait_first`.
    Attempt { wait_first: bool },
    /// All attempts are used up.
    GiveUp,
}

/// The step for attempt number `attempt` (counted from 0).
pub open spec fn startup_step_for(attempt: u32) -> StartupStep {
    if attempt < STARTUP_CONNECT_ATTEMPTS {
        StartupStep::Attempt { wait_first: attempt > 0 }
    } else {
        StartupStep::GiveUp
    }
}

/// The step for attempt number `attempt` (counted from 0): the first attempt
/// is made at once, every later one after the retry delay, and after
/// `STARTUP_CONNECT_ATTEMPTS` attempts the loop gives up.
pub fn startup_step(attempt: u32) -> (step: StartupStep)
    ensures
        step == startup_step_for(attempt),
{
    if attempt < STARTUP_CONNECT_ATTEMPTS {
        StartupStep::Attempt { wait_first: attempt > 0 }
    } else {
        StartupStep::GiveUp
    }
}

/// Back-off after a rate-limited poll when the endpoint did not say how long
/// to wait.
pub const RATE_LIMIT_FALLBACK_SECS: u64 = 120;

/// How the background poller reacts to a failed poll.
#[derive(Debug, Clone, PartialEq, Eq)]
pub enum PollFailureReaction {
    /// Tell the window `notice`, then sleep `secs` before the next poll.
    BackOff { secs: u64, notice: String },
    /// Tell the window `message`; the next poll comes at the normal pace.
    Report { message: String },
}

/// The seconds to back off after a rate limit.
pub open spec fn backoff_secs(retry_after_secs: Option<u64>) -> u64 {
    match retry_after_secs {
        Some(s) => s,
        None => RATE_LIMIT_FALLBACK_SECS,
    }
}

/// The notice shown while backing off.
pub open spec fn backoff_notice(secs: u64) -> Seq<char> {
    "Rate limited by usage endpoint - waiting "@ + decimal_digits(secs as nat) + "s"@
}

/// A rate limit makes the poller wait as long as the endpoint asked (or
/// `RATE_LIMIT_FALLBACK_SECS`) instead of retrying at the normal pace; any
/// other failure is only reported.
pub fn poll_failure_reaction(err: &PollError) -> (reaction: PollFailureReaction)
    ensures
        match *err {
            PollError::RateLimited { retry_after_secs } => reaction matches PollFailureReaction::BackOff {
                secs,
                notice,
            } && secs == backoff_secs(retry_after_secs) && notice@ == backoff_notice(secs),
            PollError::Other(_) => reaction matches PollFailureReaction::Report { message }
                && message@ == poll_error_text(*err),
        },
{
    match err {
        PollError::RateLimited { retry_after_secs } => {
            let secs = match retry_after_secs {
                Some(s) => *s,
                None => RATE_LIMIT_FALLBACK_SECS,
            };
            let notice = String::from_str("Rate limited by usage endpoint - waiting ").concat(
                u64_text(secs).as_str(),
            ).concat("s");
            PollFailureReaction::BackOff { secs, notice }
        },
        PollError::Other(_) => PollFailureReaction::Report { message: err.message() },
    }
}

} // verus!
