//! Toasts: transient notes that appear, fade on their own and are gone.

use crate::notify::NotificationState;
use crate::text;
use vstd::prelude::*;

verus! {

/// How long a toast is visible, in milliseconds.
pub const VISIBLE_MS: i128 = 5000;

/// How long a toast that has run out stays to fade away, in milliseconds.
pub const FADING_MS: i128 = 500;

/// How long after a toast its message is cleared, in milliseconds.
pub const CLEAR_MS: u32 = 5500;

/// How often toasts are looked after, in milliseconds.
pub const TICK_MS: u32 = 100;

/// What a toast tells.
#[derive(Clone, Copy, Debug, PartialEq, Eq, Structural)]
pub enum ToastKind {
    Error,
    Info,
}

/// A toast.
#[derive(Clone, Debug, PartialEq)]
pub struct ToastItem {
    pub id: usize,
    pub content: String,
    pub kind: ToastKind,
    pub visible: bool,
    /// When the toast stops being visible, in milliseconds since the beginning of 1970.
    pub expiry_time: i128,
}

/// The toasts on screen, oldest first, and the id of the next one.
#[derive(Debug, PartialEq)]
pub struct Toasts {
    pub queue: Vec<ToastItem>,
    pub counter: usize,
}

/// Whether a toast visibly tells something already.
pub open spec fn tells(toast: ToastItem, kind: ToastKind, content: Seq<char>) -> bool {
    toast.visible && toast.kind == kind && toast.content@ == content
}

/// A toast at an instant: one that has run out is no longer visible.
pub open spec fn at_instant(toast: ToastItem, now: int) -> ToastItem {
    if now >= toast.expiry_time {
        ToastItem { visible: false, ..toast }
    } else {
        toast
    }
}

/// Whether a toast is still on screen at an instant.
pub open spec fn lingers(toast: ToastItem, now: int) -> bool {
    toast.visible || now < toast.expiry_time + FADING_MS
}

/// The toasts that are on screen at an instant, as they are then.
pub open spec fn looked_after(queue: Seq<ToastItem>, now: int) -> Seq<ToastItem>
    decreases queue.len(),
{
    if queue.len() == 0 {
        Seq::empty()
    } else {
        let rest = looked_after(queue.drop_last(), now);
        let last = at_instant(queue.last(), now);
        if lingers(last, now) {
            rest.push(last)
        } else {
            rest
        }
    }
}

/// Whether the ids of toasts rise and stay below a bound.
pub open spec fn numbered(queue: Seq<ToastItem>, counter: int) -> bool {
    &&& forall|i: int| 0 <= i < queue.len() ==> (#[trigger] queue[i]).id < counter
    &&& forall|i: int, j: int|
        0 <= i < j < queue.len() ==> (#[trigger] queue[i]).id < (#[trigger] queue[j]).id
}

/// Whether two toasts visibly tell the same.
pub open spec fn twins(a: ToastItem, b: ToastItem) -> bool {
    b.visible && tells(a, b.kind, b.content@)
}

/// Whether no two toasts visibly tell the same.
pub open spec fn no_twins(queue: Seq<ToastItem>) -> bool {
    forall|i: int, j: int|
        0 <= i < j < queue.len() ==> !twins(#[trigger] queue[i], #[trigger] queue[j])
}

impl Toasts {
    /// Whether toasts have ids of their own and no two of them visibly tell the same.
    pub open spec fn wf(self) -> bool {
        &&& numbered(self.queue@, self.counter as int)
        &&& no_twins(self.queue@)
    }

    /// No toasts.
    pub fn new() -> (r: Self)
        ensures
            r.wf(),
            r.queue@.len() == 0,
            r.counter == 0,
    {
        Toasts { queue: Vec::new(), counter: 0 }
    }

    /// Whether a toast visibly tells something already.
    pub fn is_told(&self, kind: ToastKind, content: &str) -> (r: bool)
        ensures
            r == (exists|i: int|
                0 <= i < self.queue@.len() && tells(#[trigger] self.queue@[i], kind, content@)),
    {
        let mut i: usize = 0;
        while i < self.queue.len()
            invariant
                i <= self.queue@.len(),
                forall|k: int| 0 <= k < i ==> !tells(#[trigger] self.queue@[k], kind, content@),
            decreases self.queue@.len() - i,
        {
            if self.queue[i].visible && self.queue[i].kind == kind && text::same(
                self.queue[i].content.as_str(),
                content,
            ) {
                assert(tells(self.queue@[i as int], kind, content@));
                return true;
            }
            i += 1;
        }
        false
    }

    /// Shows a message for a while, unless a toast visibly tells it already. Says whether a
    /// toast was added; its message is then to be cleared in time.
    pub fn show(&mut self, kind: ToastKind, content: &str, now: i64) -> (r: bool)
        requires
            old(self).wf(),
            old(self).counter < usize::MAX,
        ensures
            final(self).wf(),
            r == !(exists|i: int|
                0 <= i < old(self).queue@.len() && tells(
                    #[trigger] old(self).queue@[i],
                    kind,
                    content@,
                )),
            !r ==> *final(self) == *old(self),
            r ==> {
                let queue = final(self).queue@;
                &&& queue.len() == old(self).queue@.len() + 1
                &&& queue.drop_last() == old(self).queue@
                &&& queue.last().id == old(self).counter
                &&& queue.last().content@ == content@
                &&& queue.last().kind == kind
                &&& queue.last().visible
                &&& queue.last().expiry_time == now + VISIBLE_MS
                &&& final(self).counter == old(self).counter + 1
            },
    {
        if self.is_told(kind, content) {
            return false;
        }
        let ghost before = self.queue@;
        self.queue.push(
            ToastItem {
                id: self.counter,
                content: content.to_string(),
                kind,
                visible: true,
                expiry_time: now as i128 + VISIBLE_MS,
            },
        );
        self.counter = self.counter + 1;
        assert(self.queue@.drop_last() =~= before);
        true
    }

    /// Looks after the toasts: hides those that have run out, and removes those that have
    /// faded away.
    pub fn tick(&mut self, now: i64)
        requires
            old(self).wf(),
        ensures
            final(self).wf(),
            final(self).queue@ == looked_after(old(self).queue@, now as int),
            final(self).counter == old(self).counter,
    {
        let mut queue: Vec<ToastItem> = Vec::new();
        std::mem::swap(&mut self.queue, &mut queue);
        let ghost all = queue@;
        let mut kept: Vec<ToastItem> = Vec::new();
        for toast in it: queue
            invariant
                it.seq() == all,
                kept@ == looked_after(all.take(it.index() as int), now as int),
        {
            proof {
                let next = all.take(it.index() + 1);
                assert(next.drop_last() =~= all.take(it.index() as int));
                assert(next.last() == toast);
            }
            let mut t: ToastItem = toast;
            if t.visible && now as i128 >= t.expiry_time {
                t.visible = false;
            }
            if t.visible || (now as i128 - FADING_MS) < t.expiry_time {
                kept.push(t);
            }
        }
        assert(all.take(all.len() as int) =~= all);
        self.queue = kept;
        proof {
            lemma_looked_after(all, now as int, self.counter as int);
        }
    }

    /// Hides a toast.
    pub fn dismiss(&mut self, id: usize)
        requires
            old(self).wf(),
        ensures
            final(self).wf(),
            final(self).counter == old(self).counter,
            final(self).queue@.len() == old(self).queue@.len(),
            forall|i: int|
                0 <= i < old(self).queue@.len() ==> (#[trigger] final(self).queue@[i]) == (
                ToastItem {
                    visible: old(self).queue@[i].visible && old(self).queue@[i].id != id,
                    ..old(self).queue@[i]
                }),
    {
        let ghost before = self.queue@;
        let mut i: usize = 0;
        while i < self.queue.len()
            invariant
                i <= self.queue@.len(),
                self.queue@ == before,
                self.counter == old(self).counter,
                old(self).queue@ == before,
                old(self).wf(),
                forall|k: int| 0 <= k < i ==> (#[trigger] before[k]).id != id,
            decreases self.queue@.len() - i,
        {
            if self.queue[i].id == id {
                self.queue[i].visible = false;
                proof {
                    let hidden = ToastItem { visible: false, ..before[i as int] };
                    assert(self.queue@ =~= before.update(i as int, hidden));
                    assert forall|k: int| 0 <= k < before.len() implies (
                    #[trigger] self.queue@[k]) == (ToastItem {
                        visible: before[k].visible && before[k].id != id,
                        ..before[k]
                    }) by {
                        if k != i {
                            assert(before[k].id != id);
                        }
                    }
                    lemma_hidden(before, i as int, self.counter as int);
                }
                return;
            }
            i += 1;
        }
    }
}

proof fn lemma_hidden(queue: Seq<ToastItem>, at: int, counter: int)
    requires
        0 <= at < queue.len(),
        numbered(queue, counter),
        no_twins(queue),
    ensures
        numbered(queue.update(at, ToastItem { visible: false, ..queue[at] }), counter),
        no_twins(queue.update(at, ToastItem { visible: false, ..queue[at] })),
{
    let next = queue.update(at, ToastItem { visible: false, ..queue[at] });
    assert forall|i: int, j: int| 0 <= i < j < next.len() implies !twins(
        #[trigger] next[i],
        #[trigger] next[j],
    ) && next[i].id < next[j].id by {
        assert(!twins(queue[i], queue[j]));
        assert(queue[i].id < queue[j].id);
    }
    assert forall|i: int| 0 <= i < next.len() implies (#[trigger] next[i]).id < counter by {
        assert(queue[i].id < counter);
    }
}

/// What is looked after comes from the toasts, in their order.
pub(crate) proof fn lemma_source(queue: Seq<ToastItem>, now: int, i: int)
    requires
        0 <= i < looked_after(queue, now).len(),
    ensures
        exists|k: int|
            0 <= k < queue.len() && at_instant(#[trigger] queue[k], now) == looked_after(
                queue,
                now,
            )[i],
    decreases queue.len(),
{
    let rest = queue.drop_last();
    if i < looked_after(rest, now).len() {
        lemma_source(rest, now, i);
        let k = choose|k: int|
            0 <= k < rest.len() && at_instant(#[trigger] rest[k], now) == looked_after(
                rest,
                now,
            )[i];
        assert(queue[k] == rest[k]);
    } else {
        assert(at_instant(queue[queue.len() - 1], now) == looked_after(queue, now)[i]);
    }
}

proof fn lemma_looked_after(queue: Seq<ToastItem>, now: int, counter: int)
    requires
        numbered(queue, counter),
        no_twins(queue),
    ensures
        numbered(looked_after(queue, now), counter),
        no_twins(looked_after(queue, now)),
    decreases queue.len(),
{
    if queue.len() > 0 {
        let rest = queue.drop_last();
        let last = queue.last();
        assert forall|i: int, j: int| 0 <= i < j < rest.len() implies !twins(
            #[trigger] rest[i],
            #[trigger] rest[j],
        ) && rest[i].id < rest[j].id by {
            assert(!twins(queue[i], queue[j]));
            assert(queue[i].id < queue[j].id);
        }
        assert forall|i: int| 0 <= i < rest.len() implies (#[trigger] rest[i]).id < counter by {
            assert(queue[i].id < counter);
        }
        lemma_looked_after(rest, now, counter);
        let before = looked_after(rest, now);
        let next = looked_after(queue, now);
        assert forall|i: int| 0 <= i < before.len() implies (#[trigger] before[i]).id < last.id
            && !twins(before[i], at_instant(last, now)) by {
            lemma_source(rest, now, i);
            let k = choose|k: int|
                0 <= k < rest.len() && at_instant(#[trigger] rest[k], now) == before[i];
            assert(queue[k] == rest[k]);
            assert(queue[k].id < queue[queue.len() - 1].id);
            assert(!twins(queue[k], queue[queue.len() - 1]));
        }
        assert(queue[queue.len() - 1].id < counter);
    }
}

/// Clears the message that a toast told, unless another has taken its place.
pub fn clear_told(state: &mut NotificationState, kind: ToastKind, content: &str)
    ensures
        *final(state) == match kind {
            ToastKind::Error => if text::held(old(state).error_message) == Some(content@) {
                NotificationState { error_message: None, ..*old(state) }
            } else {
                *old(state)
            },
            ToastKind::Info => if text::held(old(state).info_message) == Some(content@) {
                NotificationState { info_message: None, ..*old(state) }
            } else {
                *old(state)
            },
        },
{
    match kind {
        ToastKind::Error => {
            if is_text(&state.error_message, content) {
                state.error_message = None;
            }
        },
        ToastKind::Info => {
            if is_text(&state.info_message, content) {
                state.info_message = None;
            }
        },
    }
}

fn is_text(message: &Option<String>, content: &str) -> (r: bool)
    ensures
        r == (text::held(*message) == Some(content@)),
{
    match message {
        Some(m) => text::same(m.as_str(), content),
        None => false,
    }
}

/// A toast as it appears.
#[derive(Debug, PartialEq)]
pub struct ToastView {
    pub id: usize,
    pub content: String,
    pub item_class: &'static str,
    pub toast_class: &'static str,
    pub icon_class: &'static str,
}

/// Whether a toast appears as it should.
pub open spec fn appears(view: ToastView, toast: ToastItem) -> bool {
    &&& view.id == toast.id
    &&& view.content == toast.content
    &&& view.item_class@ == if toast.visible {
        "toast-visible"@
    } else {
        "toast-hidden"@
    }
    &&& view.toast_class@ == match toast.kind {
        ToastKind::Error => "toast-error"@,
        ToastKind::Info => "toast-info"@,
    }
    &&& view.icon_class@ == match toast.kind {
        ToastKind::Error => "ph ph-warning-circle"@,
        ToastKind::Info => "ph ph-info"@,
    }
}

/// The toasts as they appear.
pub fn toast_notification(toasts: &Toasts) -> (r: Vec<ToastView>)
    ensures
        r@.len() == toasts.queue@.len(),
        forall|i: int| 0 <= i < r@.len() ==> appears(#[trigger] r@[i], toasts.queue@[i]),
{
    let mut r: Vec<ToastView> = Vec::new();
    let mut i: usize = 0;
    while i < toasts.queue.len()
        invariant
            i <= toasts.queue@.len(),
            r@.len() == i,
            forall|k: int| 0 <= k < i ==> appears(#[trigger] r@[k], toasts.queue@[k]),
        decreases toasts.queue@.len() - i,
    {
        let toast: &ToastItem = &toasts.queue[i];
        r.push(
            ToastView {
                id: toast.id,
                content: toast.content.clone(),
                item_class: if toast.visible {
                    "toast-visible"
                } else {
                    "toast-hidden"
                },
                toast_class: match toast.kind {
                    ToastKind::Error => "toast-error",
                    ToastKind::Info => "toast-info",
                },
                icon_class: match toast.kind {
                    ToastKind::Error => "ph ph-warning-circle",
                    ToastKind::Info => "ph ph-info",
                },
            },
        );
        i += 1;
    }
    r
}

/// After toasts have been looked after, none that has run out is visible, and none is left
/// that ran out longer ago than it takes to fade.
pub proof fn law_toasts_run_out(queue: Seq<ToastItem>, now: int, i: int)
    requires
        0 <= i < looked_after(queue, now).len(),
    ensures
        looked_after(queue, now)[i].visible ==> now < looked_after(queue, now)[i].expiry_time,
        now < looked_after(queue, now)[i].expiry_time + FADING_MS,
    decreases queue.len(),
{
    let rest = queue.drop_last();
    if i < looked_after(rest, now).len() {
        law_toasts_run_out(rest, now, i);
    }
}

/// A toast stays visible until it runs out: looking after the toasts before that keeps it as
/// it is.
pub proof fn law_toasts_last(queue: Seq<ToastItem>, now: int, i: int)
    requires
        0 <= i < queue.len(),
        now < queue[i].expiry_time,
    ensures
        looked_after(queue, now).contains(queue[i]),
    decreases queue.len(),
{
    let rest = queue.drop_last();
    let before = looked_after(rest, now);
    let after = looked_after(queue, now);
    if i < rest.len() {
        law_toasts_last(rest, now, i);
        let k = choose|k: int| 0 <= k < before.len() && before[k] == rest[i];
        assert(after[k] == queue[i]);
    } else {
        assert(after[after.len() - 1] == queue[i]);
    }
}

} // verus!
