//! What holds of tasks and notifications across several requests.

use crate::double::{Double, HUNDRED, ZERO};
use crate::ident;
use crate::json;
use crate::moment;
use crate::moment::Timestamp;
use crate::store;
use crate::store::{Contents, Entry, Fetched, StoreOp};
use crate::task_manager;
use crate::task_manager::{
    InAppNotification, MsgSeverity, Plan, Signal, TaskInfo, TaskStatus, TaskUpdate,
    NOTIF_INDEX_TTL_SECS, TASK_INDEX_TTL_SECS, TASK_TTL_SECS,
};
use crate::text;
use vstd::prelude::*;

verus! {

// ---- keys ----

proof fn lemma_prefixes()
    ensures
        "task:"@ == seq!['t', 'a', 's', 'k', ':'],
        "task:index:"@ == seq!['t', 'a', 's', 'k', ':', 'i', 'n', 'd', 'e', 'x', ':'],
        "notif:"@ == seq!['n', 'o', 't', 'i', 'f', ':'],
        "notif:index:"@ == seq!['n', 'o', 't', 'i', 'f', ':', 'i', 'n', 'd', 'e', 'x', ':'],
        ":"@ == seq![':'],
{
    reveal_strlit("task:");
    reveal_strlit("task:index:");
    reveal_strlit("notif:");
    reveal_strlit("notif:index:");
    reveal_strlit(":");
    assert("task:"@ =~= seq!['t', 'a', 's', 'k', ':']);
    assert("task:index:"@ =~= seq!['t', 'a', 's', 'k', ':', 'i', 'n', 'd', 'e', 'x', ':']);
    assert("notif:"@ =~= seq!['n', 'o', 't', 'i', 'f', ':']);
    assert("notif:index:"@ =~= seq![
        'n',
        'o',
        't',
        'i',
        'f',
        ':',
        'i',
        'n',
        'd',
        'e',
        'x',
        ':',
    ]);
    assert(":"@ =~= seq![':']);
}

/// The key of a task whose id is a fresh identifier is no index of tasks, and no key of
/// a task is one of notifications.
pub proof fn law_task_keys_stand_apart(id: Seq<char>, user_id: i32, other: Seq<char>)
    ensures
        ident::is_identifier(id) ==> task_manager::task_key_text(id)
            != task_manager::task_index_text(user_id),
        task_manager::task_key_text(id) != task_manager::notif_key_text(user_id, other),
        task_manager::task_key_text(id) != task_manager::notif_index_text(user_id),
{
    lemma_prefixes();
    let key = task_manager::task_key_text(id);
    assert(key[0] == 't');
    if ident::is_identifier(id) {
        assert(key[5] == id[0]);
        assert(ident::is_hex(id[0]));
    }
    let index = task_manager::task_index_text(user_id);
    assert(index[5] == 'i');
    assert(task_manager::notif_key_text(user_id, other)[0] == 'n');
    assert(task_manager::notif_index_text(user_id)[0] == 'n');
}

/// The key of a notification is no index.
pub proof fn law_notification_keys_stand_apart(user_id: i32, id: Seq<char>, other: i32)
    ensures
        task_manager::notif_key_text(user_id, id) != task_manager::notif_index_text(other),
        task_manager::notif_key_text(user_id, id) != task_manager::task_index_text(other),
        task_manager::notif_index_text(user_id) != task_manager::task_index_text(other),
{
    lemma_prefixes();
    text::lemma_decimal_chars(user_id as int);
    let key = task_manager::notif_key_text(user_id, id);
    assert(key[6] == text::decimal_text(user_id as int)[0]);
    assert(key[0] == 'n');
    assert(task_manager::notif_index_text(other)[6] == 'i');
    assert(task_manager::task_index_text(other)[0] == 't');
    assert(task_manager::notif_index_text(user_id)[0] == 'n');
}

proof fn lemma_decimal_injective(a: i32, b: i32)
    requires
        text::decimal_text(a as int) == text::decimal_text(b as int),
    ensures
        a == b,
{
    text::law_printed_number_reads_back(a);
    text::law_printed_number_reads_back(b);
}

/// Users have indexes of their own.
pub proof fn law_indexes_are_per_user(a: i32, b: i32)
    requires
        a != b,
    ensures
        task_manager::task_index_text(a) != task_manager::task_index_text(b),
        task_manager::notif_index_text(a) != task_manager::notif_index_text(b),
{
    lemma_prefixes();
    let da = text::decimal_text(a as int);
    let db = text::decimal_text(b as int);
    if task_manager::task_index_text(a) == task_manager::task_index_text(b) {
        assert(da =~= task_manager::task_index_text(a).skip(11));
        assert(db =~= task_manager::task_index_text(b).skip(11));
        lemma_decimal_injective(a, b);
    }
    if task_manager::notif_index_text(a) == task_manager::notif_index_text(b) {
        assert(da =~= task_manager::notif_index_text(a).skip(12));
        assert(db =~= task_manager::notif_index_text(b).skip(12));
        lemma_decimal_injective(a, b);
    }
}

/// Two notifications share a key only if they share user and id.
pub proof fn law_notification_keys_are_distinct(a: i32, id_a: Seq<char>, b: i32, id_b: Seq<char>)
    requires
        task_manager::notif_key_text(a, id_a) == task_manager::notif_key_text(b, id_b),
    ensures
        a == b,
        id_a == id_b,
{
    lemma_prefixes();
    let da = text::decimal_text(a as int);
    let db = text::decimal_text(b as int);
    let key = task_manager::notif_key_text(a, id_a);
    let other = task_manager::notif_key_text(b, id_b);
    text::lemma_decimal_chars(a as int);
    text::lemma_decimal_chars(b as int);
    assert(key[6 + da.len() as int] == ':');
    assert(other[6 + db.len() as int] == ':');
    assert(forall|i: int| 0 <= i < da.len() ==> key[6 + i] == #[trigger] da[i]);
    assert(forall|i: int| 0 <= i < db.len() ==> other[6 + i] == #[trigger] db[i]);
    if da.len() < db.len() {
        assert(other[6 + da.len() as int] == db[da.len() as int]);
    }
    if db.len() < da.len() {
        assert(key[6 + db.len() as int] == da[db.len() as int]);
    }
    assert(da =~= key.subrange(6, 6 + da.len() as int));
    assert(db =~= other.subrange(6, 6 + db.len() as int));
    lemma_decimal_injective(a, b);
    assert(id_a =~= key.skip(7 + da.len() as int));
    assert(id_b =~= other.skip(7 + db.len() as int));
}

// ---- what the store gives back ----

proof fn lemma_run_split(contents: Contents, a: Seq<StoreOp>, b: Seq<StoreOp>)
    ensures
        store::run_all(contents, a + b) == store::run_all(store::run_all(contents, a), b),
    decreases b.len(),
{
    if b.len() == 0 {
        assert(a + b =~= a);
    } else {
        lemma_run_split(contents, a, b.drop_last());
        assert((a + b).drop_last() =~= a + b.drop_last());
        assert((a + b).last() == b.last());
    }
}

proof fn lemma_run_one(contents: Contents, a: StoreOp)
    ensures
        store::run_all(contents, seq![a]) == store::run(contents, a),
{
    assert(seq![a].drop_last() =~= Seq::empty());
    reveal_with_fuel(store::run_all, 2);
}

proof fn lemma_run_two(contents: Contents, a: StoreOp, b: StoreOp)
    ensures
        store::run_all(contents, seq![a, b]) == store::run(store::run(contents, a), b),
{
    lemma_run_one(contents, a);
    assert(seq![a, b].drop_last() =~= seq![a]);
}

proof fn lemma_run_three(contents: Contents, a: StoreOp, b: StoreOp, c: StoreOp)
    ensures
        store::run_all(contents, seq![a, b, c]) == store::run(
            store::run(store::run(contents, a), b),
            c,
        ),
{
    lemma_run_two(contents, a, b);
    assert(seq![a, b, c].drop_last() =~= seq![a, b]);
}

/// Whether a key of the store holds what it held before.
pub open spec fn untouched(before: Contents, after: Contents, key: Seq<char>) -> bool {
    &&& after.contains_key(key) == before.contains_key(key)
    &&& before.contains_key(key) ==> after[key] == before[key]
}

/// Whether a key is that of a notification of a user.
pub open spec fn is_notif_key(user_id: i32, key: Seq<char>) -> bool {
    exists|id: Seq<char>| key == #[trigger] task_manager::notif_key_text(user_id, id)
}

/// A task that was saved is found again, under its key and in the index of its user, unless
/// its id makes its key that of the index; everything else in the store stays as it was.
pub proof fn law_saved_task_is_found(contents: Contents, task: TaskInfo)
    requires
        task_manager::task_key_text(task.id@) != task_manager::task_index_text(task.user_id),
        store::holds_set(contents, task_manager::task_index_text(task.user_id)),
    ensures
        ({
            let after = store::run_all(contents, task_manager::save_task_ops(task));
            let key = task_manager::task_key_text(task.id@);
            let index = task_manager::task_index_text(task.user_id);
            &&& store::task_at(after, key) == Fetched::Found(task)
            &&& store::members_of(after, index) == store::members_of(contents, index).insert(
                task.id@,
            )
            &&& forall|k: Seq<char>|
                k != key && k != index ==> #[trigger] untouched(contents, after, k)
        }),
{
    let ops = task_manager::save_task_ops(task);
    lemma_run_three(contents, ops[0], ops[1], ops[2]);
    assert(ops =~= seq![ops[0], ops[1], ops[2]]);
}

/// A notification that was saved is found again, under its key and in the index of its
/// user; everything else in the store stays as it was.
pub proof fn law_saved_notification_is_found(
    contents: Contents,
    notif: InAppNotification,
    ttl_secs: u64,
)
    requires
        store::holds_set(contents, task_manager::notif_index_text(notif.user_id)),
    ensures
        ({
            let after = store::run_all(
                contents,
                task_manager::save_notification_ops(notif, ttl_secs),
            );
            let key = task_manager::notif_key_text(notif.user_id, notif.id@);
            let index = task_manager::notif_index_text(notif.user_id);
            &&& store::notification_at(after, key) == Fetched::Found(notif)
            &&& store::members_of(after, index) == store::members_of(contents, index).insert(
                notif.id@,
            )
            &&& forall|k: Seq<char>|
                k != key && k != index ==> #[trigger] untouched(contents, after, k)
        }),
{
    let ops = task_manager::save_notification_ops(notif, ttl_secs);
    lemma_run_three(contents, ops[0], ops[1], ops[2]);
    assert(ops =~= seq![ops[0], ops[1], ops[2]]);
    law_notification_keys_stand_apart(notif.user_id, notif.id@, notif.user_id);
}

/// A dismissed notification is gone, from its key and from the index of its user;
/// everything else in the store stays as it was.
pub proof fn law_dismissed_notification_is_gone(contents: Contents, user_id: i32, id: Seq<char>)
    requires
        store::holds_set(contents, task_manager::notif_index_text(user_id)),
    ensures
        ({
            let after = store::run_all(
                contents,
                task_manager::remove_notification_ops(user_id, id),
            );
            let key = task_manager::notif_key_text(user_id, id);
            let index = task_manager::notif_index_text(user_id);
            &&& store::notification_at(after, key) == Fetched::<InAppNotification>::Missing
            &&& store::members_of(after, index) == store::members_of(contents, index).remove(id)
            &&& store::holds_set(after, index)
            &&& forall|k: Seq<char>|
                k != key && k != index ==> #[trigger] untouched(contents, after, k)
        }),
{
    let ops = task_manager::remove_notification_ops(user_id, id);
    lemma_run_two(contents, ops[0], ops[1]);
    assert(ops =~= seq![ops[0], ops[1]]);
    law_notification_keys_stand_apart(user_id, id, user_id);
    let index = task_manager::notif_index_text(user_id);
    let after = store::run_all(contents, ops);
    assert(store::members_of(after, index) =~= store::members_of(contents, index).remove(id));
}

/// Whether replies say what the store holds of a user's notifications.
pub open spec fn truthful(
    contents: Contents,
    user_id: i32,
    replies: Seq<(String, Fetched<InAppNotification>)>,
) -> bool {
    forall|i: int|
        0 <= i < replies.len() ==> (#[trigger] replies[i]).1 == store::notification_at(
            contents,
            task_manager::notif_key_text(user_id, replies[i].0@),
        )
}

/// Whether an id is among those that were asked for.
pub open spec fn asked_for<T>(replies: Seq<(String, Fetched<T>)>, id: Seq<char>) -> bool {
    exists|i: int| 0 <= i < replies.len() && (#[trigger] replies[i]).0@ == id
}

/// Whether an id is among those that the store answered for.
pub open spec fn answered<T>(replies: Seq<(String, Fetched<T>)>, id: Seq<char>) -> bool {
    exists|i: int|
        0 <= i < replies.len() && (#[trigger] replies[i]).0@ == id && !(replies[i].1 is Failed)
}

/// Whether each reply says what the store holds of a user's notifications, or that the store
/// did not answer.
pub open spec fn honest(
    contents: Contents,
    user_id: i32,
    replies: Seq<(String, Fetched<InAppNotification>)>,
) -> bool {
    forall|i: int|
        0 <= i < replies.len() ==> (#[trigger] replies[i]).1 is Failed || replies[i].1
            == store::notification_at(
            contents,
            task_manager::notif_key_text(user_id, replies[i].0@),
        )
}

/// Whether a reply makes clearing remove the notification with an id.
pub open spec fn told_to_go(
    replies: Seq<(String, Fetched<InAppNotification>)>,
    read_only: bool,
    id: Seq<char>,
) -> bool {
    exists|i: int|
        0 <= i < replies.len() && (#[trigger] replies[i]).0@ == id && task_manager::clears(
            read_only,
            replies[i].1,
        )
}

proof fn lemma_told_to_go(replies: Seq<(String, Fetched<InAppNotification>)>, read_only: bool)
    requires
        replies.len() > 0,
    ensures
        forall|id: Seq<char>| #[trigger]
            told_to_go(replies, read_only, id) == (told_to_go(replies.drop_last(), read_only, id)
                || id == replies.last().0@ && task_manager::clears(read_only, replies.last().1)),
{
    let rest = replies.drop_last();
    let last = replies.last();
    assert forall|id: Seq<char>| #[trigger]
        told_to_go(replies, read_only, id) == (told_to_go(rest, read_only, id) || id == last.0@
            && task_manager::clears(read_only, last.1)) by {
        if told_to_go(rest, read_only, id) {
            let i = choose|i: int|
                0 <= i < rest.len() && (#[trigger] rest[i]).0@ == id && task_manager::clears(
                    read_only,
                    rest[i].1,
                );
            assert(replies[i].0@ == id);
        }
        if id == last.0@ && task_manager::clears(read_only, last.1) {
            assert(replies[replies.len() - 1].0@ == id);
        }
        if told_to_go(replies, read_only, id) {
            let i = choose|i: int|
                0 <= i < replies.len() && (#[trigger] replies[i]).0@ == id
                    && task_manager::clears(read_only, replies[i].1);
            if i < rest.len() {
                assert(rest[i].0@ == id);
            }
        }
    }
}

/// Clearing removes each notification that a reply makes it remove, from its key and from the
/// index, whatever the replies say; no other key of the store changes.
pub proof fn law_clearing_clears(
    contents: Contents,
    user_id: i32,
    read_only: bool,
    replies: Seq<(String, Fetched<InAppNotification>)>,
)
    requires
        store::holds_set(contents, task_manager::notif_index_text(user_id)),
    ensures
        ({
            let after = store::run_all(
                contents,
                task_manager::clear_ops(user_id, read_only, replies),
            );
            let index = task_manager::notif_index_text(user_id);
            &&& store::holds_set(after, index)
            &&& forall|id: Seq<char>| #[trigger]
                store::members_of(after, index).contains(id) <==> store::members_of(
                    contents,
                    index,
                ).contains(id) && !told_to_go(replies, read_only, id)
            &&& forall|id: Seq<char>|
                #![trigger task_manager::notif_key_text(user_id, id)]
                store::notification_at(after, task_manager::notif_key_text(user_id, id))
                    == if told_to_go(replies, read_only, id) {
                    Fetched::Missing
                } else {
                    store::notification_at(contents, task_manager::notif_key_text(user_id, id))
                }
            &&& forall|k: Seq<char>|
                k != index && !is_notif_key(user_id, k) ==> #[trigger] untouched(
                    contents,
                    after,
                    k,
                )
        }),
    decreases replies.len(),
{
    let index = task_manager::notif_index_text(user_id);
    let ops = task_manager::clear_ops(user_id, read_only, replies);
    let after = store::run_all(contents, ops);
    if replies.len() == 0 {
        assert(after == contents);
    } else {
        let rest = replies.drop_last();
        let last = replies.last();
        law_clearing_clears(contents, user_id, read_only, rest);
        let mid = store::run_all(contents, task_manager::clear_ops(user_id, read_only, rest));
        let gone = task_manager::clears(read_only, last.1);
        let tail = if gone {
            task_manager::remove_notification_ops(user_id, last.0@)
        } else {
            Seq::empty()
        };
        lemma_run_split(contents, task_manager::clear_ops(user_id, read_only, rest), tail);
        lemma_told_to_go(replies, read_only);
        if gone {
            law_dismissed_notification_is_gone(mid, user_id, last.0@);
        } else {
            assert(after == mid);
        }
        assert forall|id: Seq<char>| #[trigger]
            store::members_of(after, index).contains(id) <==> store::members_of(
                contents,
                index,
            ).contains(id) && !told_to_go(replies, read_only, id) by {
            assert(store::members_of(mid, index).contains(id) <==> store::members_of(
                contents,
                index,
            ).contains(id) && !told_to_go(rest, read_only, id));
        }
        assert forall|id: Seq<char>|
            #![trigger task_manager::notif_key_text(user_id, id)]
            store::notification_at(after, task_manager::notif_key_text(user_id, id))
                == if told_to_go(replies, read_only, id) {
                Fetched::Missing
            } else {
                store::notification_at(contents, task_manager::notif_key_text(user_id, id))
            } by {
            let key = task_manager::notif_key_text(user_id, id);
            law_notification_keys_stand_apart(user_id, id, user_id);
            if gone && id != last.0@ {
                if key == task_manager::notif_key_text(user_id, last.0@) {
                    law_notification_keys_are_distinct(user_id, id, user_id, last.0@);
                }
                assert(untouched(mid, after, key));
            }
        }
        assert forall|k: Seq<char>| k != index && !is_notif_key(user_id, k) implies #[trigger]
            untouched(contents, after, k) by {
            assert(untouched(contents, mid, k));
            assert(k != task_manager::notif_key_text(user_id, last.0@));
            if gone {
                assert(untouched(mid, after, k));
            }
        }
    }
}

/// Clearing all notifications of a user, with every id of the index asked for, leaves the
/// index empty.
pub proof fn law_clearing_all_leaves_none(
    contents: Contents,
    user_id: i32,
    replies: Seq<(String, Fetched<InAppNotification>)>,
)
    requires
        store::holds_set(contents, task_manager::notif_index_text(user_id)),
        forall|id: Seq<char>| #[trigger]
            store::members_of(contents, task_manager::notif_index_text(user_id)).contains(id)
                ==> asked_for(replies, id),
    ensures
        store::members_of(
            store::run_all(contents, task_manager::clear_ops(user_id, false, replies)),
            task_manager::notif_index_text(user_id),
        ) == Set::<Seq<char>>::empty(),
{
    let index = task_manager::notif_index_text(user_id);
    let after = store::run_all(contents, task_manager::clear_ops(user_id, false, replies));
    law_clearing_clears(contents, user_id, false, replies);
    assert forall|id: Seq<char>| !(#[trigger] store::members_of(after, index).contains(id)) by {
        if store::members_of(contents, index).contains(id) {
            let i = choose|i: int| 0 <= i < replies.len() && (#[trigger] replies[i]).0@ == id;
            assert(task_manager::clears(false, replies[i].1));
            assert(told_to_go(replies, false, id));
        }
    }
    assert(store::members_of(after, index) =~= Set::<Seq<char>>::empty());
}

/// Clearing only what was read removes a notification that was read and that the store
/// answered for, and keeps every unread one, in its key and in the index, even where the store
/// did not answer for it.
pub proof fn law_clearing_read_ones_keeps_the_unread(
    contents: Contents,
    user_id: i32,
    replies: Seq<(String, Fetched<InAppNotification>)>,
    id: Seq<char>,
    notif: InAppNotification,
)
    requires
        store::holds_set(contents, task_manager::notif_index_text(user_id)),
        honest(contents, user_id, replies),
        store::notification_at(contents, task_manager::notif_key_text(user_id, id))
            == Fetched::Found(notif),
    ensures
        ({
            let after = store::run_all(
                contents,
                task_manager::clear_ops(user_id, true, replies),
            );
            let index = task_manager::notif_index_text(user_id);
            let goes = notif.read && answered(replies, id);
            &&& store::notification_at(after, task_manager::notif_key_text(user_id, id))
                == if goes {
                Fetched::Missing
            } else {
                Fetched::Found(notif)
            }
            &&& store::members_of(after, index).contains(id) <==> store::members_of(
                contents,
                index,
            ).contains(id) && !goes
        }),
{
    law_clearing_clears(contents, user_id, true, replies);
    if told_to_go(replies, true, id) {
        let i = choose|i: int|
            0 <= i < replies.len() && (#[trigger] replies[i]).0@ == id && task_manager::clears(
                true,
                replies[i].1,
            );
        assert(replies[i].1 == Fetched::Found(notif));
    }
    if answered(replies, id) {
        let i = choose|i: int|
            0 <= i < replies.len() && (#[trigger] replies[i]).0@ == id && !(replies[i].1 is Failed);
        assert(replies[i].1 == Fetched::Found(notif));
        assert(notif.read ==> told_to_go(replies, true, id));
    }
}

/// Whether listing keeps the index entry of a reply: the notification lives, or the store
/// did not answer.
pub open spec fn listing_keeps(fetched: Fetched<InAppNotification>, now: Timestamp) -> bool {
    match fetched {
        Fetched::Found(n) => task_manager::lives(n, now),
        Fetched::Failed => true,
        _ => false,
    }
}

/// Listing drops the index entries of notifications that are gone, expired or cannot be
/// read, together with what is left of them, and nothing else; what the store did not answer
/// for stays.
pub proof fn law_listing_prunes(
    contents: Contents,
    user_id: i32,
    replies: Seq<(String, Fetched<InAppNotification>)>,
    now: Timestamp,
)
    requires
        store::holds_set(contents, task_manager::notif_index_text(user_id)),
        honest(contents, user_id, replies),
    ensures
        ({
            let after = store::run_all(
                contents,
                task_manager::stale_notification_ops(user_id, replies, now),
            );
            let index = task_manager::notif_index_text(user_id);
            &&& store::holds_set(after, index)
            &&& forall|id: Seq<char>| #[trigger]
                store::members_of(after, index).contains(id) <==> store::members_of(
                    contents,
                    index,
                ).contains(id) && (answered(replies, id) ==> listing_keeps(
                    store::notification_at(contents, task_manager::notif_key_text(user_id, id)),
                    now,
                ))
            &&& forall|id: Seq<char>|
                #![trigger task_manager::notif_key_text(user_id, id)]
                store::notification_at(after, task_manager::notif_key_text(user_id, id)) == if (
                answered(replies, id) && !listing_keeps(
                    store::notification_at(contents, task_manager::notif_key_text(user_id, id)),
                    now,
                )) {
                    Fetched::Missing
                } else {
                    store::notification_at(contents, task_manager::notif_key_text(user_id, id))
                }
            &&& forall|k: Seq<char>|
                k != index && !is_notif_key(user_id, k) ==> #[trigger] untouched(
                    contents,
                    after,
                    k,
                )
        }),
    decreases replies.len(),
{
    let index = task_manager::notif_index_text(user_id);
    let ops = task_manager::stale_notification_ops(user_id, replies, now);
    let after = store::run_all(contents, ops);
    if replies.len() == 0 {
        assert(after == contents);
    } else {
        let rest = replies.drop_last();
        let last = replies.last();
        assert(honest(contents, user_id, rest)) by {
            assert forall|i: int| 0 <= i < rest.len() implies (#[trigger] rest[i]).1 is Failed
                || rest[i].1 == store::notification_at(
                contents,
                task_manager::notif_key_text(user_id, rest[i].0@),
            ) by {
                assert(rest[i] == replies[i]);
            }
        }
        law_listing_prunes(contents, user_id, rest, now);
        let before = task_manager::stale_notification_ops(user_id, rest, now);
        let mid = store::run_all(contents, before);
        let tail = task_manager::drop_notification_ops(user_id, last.0@, last.1, now);
        lemma_run_split(contents, before, tail);
        assert(last == replies[replies.len() - 1]);
        lemma_answered(replies);
        let last_key = task_manager::notif_key_text(user_id, last.0@);
        law_notification_keys_stand_apart(user_id, last.0@, user_id);
        match last.1 {
            Fetched::Missing => {
                lemma_run_one(mid, tail[0]);
                assert(tail =~= seq![tail[0]]);
                assert(store::notification_at(mid, last_key) == Fetched::<
                    InAppNotification,
                >::Missing);
                assert(store::members_of(after, index) =~= store::members_of(mid, index).remove(
                    last.0@,
                ));
                assert forall|k: Seq<char>| k != index implies #[trigger] untouched(
                    mid,
                    after,
                    k,
                ) by {}
            },
            _ => {
                if listing_keeps(last.1, now) {
                    assert(after == mid);
                } else {
                    law_dismissed_notification_is_gone(mid, user_id, last.0@);
                }
            },
        }
        assert forall|id: Seq<char>| #[trigger]
            store::members_of(after, index).contains(id) <==> store::members_of(
                contents,
                index,
            ).contains(id) && (answered(replies, id) ==> listing_keeps(
                store::notification_at(contents, task_manager::notif_key_text(user_id, id)),
                now,
            )) by {
            assert(answered(replies, id) == (answered(rest, id) || id == last.0@ && !(last.1 is
                Failed)));
            assert(store::members_of(mid, index).contains(id) <==> store::members_of(
                contents,
                index,
            ).contains(id) && (answered(rest, id) ==> listing_keeps(
                store::notification_at(contents, task_manager::notif_key_text(user_id, id)),
                now,
            )));
        }
        assert forall|id: Seq<char>|
            #![trigger task_manager::notif_key_text(user_id, id)]
            store::notification_at(after, task_manager::notif_key_text(user_id, id)) == if (
            answered(replies, id) && !listing_keeps(
                store::notification_at(contents, task_manager::notif_key_text(user_id, id)),
                now,
            )) {
                Fetched::Missing
            } else {
                store::notification_at(contents, task_manager::notif_key_text(user_id, id))
            } by {
            let key = task_manager::notif_key_text(user_id, id);
            assert(answered(replies, id) == (answered(rest, id) || id == last.0@ && !(last.1 is
                Failed)));
            law_notification_keys_stand_apart(user_id, id, user_id);
            if key == last_key {
                law_notification_keys_are_distinct(user_id, id, user_id, last.0@);
            } else if after != mid {
                assert(untouched(mid, after, key));
            }
        }
        assert forall|k: Seq<char>| k != index && !is_notif_key(user_id, k) implies #[trigger]
            untouched(contents, after, k) by {
            assert(untouched(contents, mid, k));
            assert(k != last_key);
            if after != mid {
                assert(untouched(mid, after, k));
            }
        }
    }
}

proof fn lemma_answered<T>(replies: Seq<(String, Fetched<T>)>)
    requires
        replies.len() > 0,
    ensures
        forall|id: Seq<char>| #[trigger]
            answered(replies, id) == (answered(replies.drop_last(), id) || id
                == replies.last().0@ && !(replies.last().1 is Failed)),
{
    let rest = replies.drop_last();
    let last = replies.last();
    assert forall|id: Seq<char>| #[trigger]
        answered(replies, id) == (answered(rest, id) || id == last.0@ && !(last.1 is Failed)) by {
        if answered(rest, id) {
            let i = choose|i: int|
                0 <= i < rest.len() && (#[trigger] rest[i]).0@ == id && !(rest[i].1 is Failed);
            assert(replies[i].0@ == id);
        }
        if id == last.0@ && !(last.1 is Failed) {
            assert(replies[replies.len() - 1].0@ == id);
        }
        if answered(replies, id) {
            let i = choose|i: int|
                0 <= i < replies.len() && (#[trigger] replies[i]).0@ == id && !(
                replies[i].1 is Failed);
            if i < rest.len() {
                assert(rest[i].0@ == id);
            }
        }
    }
}

/// A list of notifications holds exactly those that were found and live.
pub proof fn law_list_is_exact(
    replies: Seq<(String, Fetched<InAppNotification>)>,
    now: Timestamp,
    notif: InAppNotification,
)
    ensures
        crate::order::ordered(task_manager::live_notifications(replies, now)).contains(notif)
            <==> task_manager::lives(notif, now) && exists|i: int|
            0 <= i < replies.len() && (#[trigger] replies[i]).1 == Fetched::Found(notif),
{
    let live = task_manager::live_notifications(replies, now);
    lemma_live(replies, now, notif);
    lemma_ordered_contains(live, notif);
}

proof fn lemma_ordered_contains<T: crate::order::Ranked>(items: Seq<T>, item: T)
    ensures
        crate::order::ordered(items).contains(item) <==> items.contains(item),
{
    crate::order::law_ordering_keeps_items(items);
    vstd::seq_lib::to_multiset_contains(items, item);
    vstd::seq_lib::to_multiset_contains(crate::order::ordered(items), item);
}

proof fn lemma_live(
    replies: Seq<(String, Fetched<InAppNotification>)>,
    now: Timestamp,
    notif: InAppNotification,
)
    ensures
        task_manager::live_notifications(replies, now).contains(notif) <==> task_manager::lives(
            notif,
            now,
        ) && exists|i: int|
            0 <= i < replies.len() && (#[trigger] replies[i]).1 == Fetched::Found(notif),
    decreases replies.len(),
{
    let live = task_manager::live_notifications(replies, now);
    if replies.len() > 0 {
        let rest = replies.drop_last();
        let last = replies.last();
        lemma_live(rest, now, notif);
        let a = task_manager::live_notifications(rest, now);
        let b = task_manager::kept_notification(last.1, now);
        assert(live == a + b);
        if a.contains(notif) {
            let i = choose|i: int| 0 <= i < a.len() && a[i] == notif;
            assert(live[i] == notif);
            let j = choose|j: int|
                0 <= j < rest.len() && (#[trigger] rest[j]).1 == Fetched::Found(notif);
            assert(replies[j].1 == Fetched::Found(notif));
        }
        if b.contains(notif) {
            assert(live[a.len() as int] == notif);
            assert(replies[replies.len() - 1].1 == Fetched::Found(notif));
        }
        if live.contains(notif) && !a.contains(notif) {
            let i = choose|i: int| 0 <= i < live.len() && live[i] == notif;
            assert(i >= a.len()) by {
                if i < a.len() {
                    assert(a[i] == notif);
                }
            }
            assert(b[i - a.len()] == notif);
        }
        if task_manager::lives(notif, now) && exists|i: int|
            0 <= i < replies.len() && (#[trigger] replies[i]).1 == Fetched::Found(notif) {
            let i = choose|i: int|
                0 <= i < replies.len() && (#[trigger] replies[i]).1 == Fetched::Found(notif);
            if i < rest.len() {
                assert(rest[i].1 == Fetched::Found(notif));
            } else {
                assert(b[0] == notif);
            }
        }
    }
}

/// A notification that was saved is listed, as long as it lives, whenever the ids in the
/// index of its user are asked for.
pub proof fn law_saved_notification_is_listed(
    contents: Contents,
    notif: InAppNotification,
    ttl_secs: u64,
    replies: Seq<(String, Fetched<InAppNotification>)>,
    now: Timestamp,
)
    requires
        store::holds_set(contents, task_manager::notif_index_text(notif.user_id)),
        task_manager::lives(notif, now),
        ({
            let after = store::run_all(
                contents,
                task_manager::save_notification_ops(notif, ttl_secs),
            );
            &&& truthful(after, notif.user_id, replies)
            &&& forall|id: Seq<char>| #[trigger]
                store::members_of(after, task_manager::notif_index_text(notif.user_id)).contains(
                    id,
                ) ==> asked_for(replies, id)
        }),
    ensures
        crate::order::ordered(task_manager::live_notifications(replies, now)).contains(notif),
{
    let after = store::run_all(contents, task_manager::save_notification_ops(notif, ttl_secs));
    let index = task_manager::notif_index_text(notif.user_id);
    law_saved_notification_is_found(contents, notif, ttl_secs);
    assert(store::members_of(after, index).contains(notif.id@));
    let i = choose|i: int| 0 <= i < replies.len() && (#[trigger] replies[i]).0@ == notif.id@;
    assert(replies[i].1 == Fetched::Found(notif));
    law_list_is_exact(replies, now, notif);
}

/// Whether every notification of a user lies under its own key.
pub open spec fn well_kept(contents: Contents, user_id: i32) -> bool {
    forall|id: Seq<char>|
        #![trigger task_manager::notif_key_text(user_id, id)]
        store::notification_at(contents, task_manager::notif_key_text(user_id, id)) matches
            Fetched::Found(n) ==> n.user_id == user_id && n.id@ == id
}

/// Saving a notification keeps every notification of every user under its own key.
pub proof fn law_saving_keeps_keys(
    contents: Contents,
    notif: InAppNotification,
    ttl_secs: u64,
    user_id: i32,
)
    requires
        store::holds_set(contents, task_manager::notif_index_text(notif.user_id)),
        well_kept(contents, user_id),
    ensures
        well_kept(
            store::run_all(contents, task_manager::save_notification_ops(notif, ttl_secs)),
            user_id,
        ),
{
    let after = store::run_all(contents, task_manager::save_notification_ops(notif, ttl_secs));
    law_saved_notification_is_found(contents, notif, ttl_secs);
    let own = task_manager::notif_key_text(notif.user_id, notif.id@);
    assert forall|id: Seq<char>|
        #![trigger task_manager::notif_key_text(user_id, id)]
        store::notification_at(after, task_manager::notif_key_text(user_id, id)) matches
            Fetched::Found(n) ==> n.user_id == user_id && n.id@ == id by {
        let key = task_manager::notif_key_text(user_id, id);
        if key == own {
            law_notification_keys_are_distinct(user_id, id, notif.user_id, notif.id@);
        } else {
            law_notification_keys_stand_apart(user_id, id, notif.user_id);
            assert(untouched(contents, after, key));
        }
    }
}

/// A dismissed notification is listed no more.
pub proof fn law_dismissed_notification_is_not_listed(
    contents: Contents,
    user_id: i32,
    id: Seq<char>,
    replies: Seq<(String, Fetched<InAppNotification>)>,
    now: Timestamp,
    notif: InAppNotification,
)
    requires
        store::holds_set(contents, task_manager::notif_index_text(user_id)),
        well_kept(contents, user_id),
        honest(
            store::run_all(contents, task_manager::remove_notification_ops(user_id, id)),
            user_id,
            replies,
        ),
        crate::order::ordered(task_manager::live_notifications(replies, now)).contains(notif),
    ensures
        notif.id@ != id,
{
    let after = store::run_all(contents, task_manager::remove_notification_ops(user_id, id));
    law_dismissed_notification_is_gone(contents, user_id, id);
    law_list_is_exact(replies, now, notif);
    let i = choose|i: int|
        0 <= i < replies.len() && (#[trigger] replies[i]).1 == Fetched::Found(notif);
    let asked = replies[i].0@;
    let key = task_manager::notif_key_text(user_id, asked);
    law_notification_keys_stand_apart(user_id, asked, user_id);
    if key != task_manager::notif_key_text(user_id, id) {
        assert(untouched(contents, after, key));
        assert(notif.id@ == asked);
    }
}

/// The list that replies come to at an instant.
pub open spec fn listed(
    replies: Seq<(String, Fetched<InAppNotification>)>,
    now: Timestamp,
) -> Seq<InAppNotification> {
    crate::order::ordered(task_manager::live_notifications(replies, now))
}

/// Whether the ids that were asked for are those in the index of a user.
pub open spec fn asks_for_index(
    contents: Contents,
    user_id: i32,
    replies: Seq<(String, Fetched<InAppNotification>)>,
) -> bool {
    forall|id: Seq<char>| #[trigger]
        asked_for(replies, id) <==> store::members_of(
            contents,
            task_manager::notif_index_text(user_id),
        ).contains(id)
}

/// Whether a user's index names a notification and its key holds it.
spec fn keeps(contents: Contents, user_id: i32, notif: InAppNotification) -> bool {
    &&& store::members_of(contents, task_manager::notif_index_text(user_id)).contains(notif.id@)
    &&& store::notification_at(contents, task_manager::notif_key_text(user_id, notif.id@))
        == Fetched::Found(notif)
}

proof fn lemma_listed(
    contents: Contents,
    user_id: i32,
    replies: Seq<(String, Fetched<InAppNotification>)>,
    now: Timestamp,
    notif: InAppNotification,
)
    requires
        well_kept(contents, user_id),
        truthful(contents, user_id, replies),
        asks_for_index(contents, user_id, replies),
    ensures
        listed(replies, now).contains(notif) <==> task_manager::lives(notif, now) && keeps(
            contents,
            user_id,
            notif,
        ),
{
    law_list_is_exact(replies, now, notif);
    if exists|i: int| 0 <= i < replies.len() && (#[trigger] replies[i]).1 == Fetched::Found(notif) {
        let i = choose|i: int|
            0 <= i < replies.len() && (#[trigger] replies[i]).1 == Fetched::Found(notif);
        let key = task_manager::notif_key_text(user_id, replies[i].0@);
        assert(store::notification_at(contents, key) == Fetched::Found(notif));
        assert(asked_for(replies, notif.id@));
    }
    if keeps(contents, user_id, notif) {
        assert(asked_for(replies, notif.id@));
        let i = choose|i: int| 0 <= i < replies.len() && (#[trigger] replies[i]).0@ == notif.id@;
        assert(replies[i].1 == Fetched::Found(notif));
    }
}

/// A user's list after a dismissal is the one before it without the notification dismissed, if
/// it was the user's; other users' lists stay as they were. This holds of a notification that
/// does not expire between the two lists, where the store answers. Each list removes what is
/// stale from the store before anything else happens.
pub proof fn law_dismissing_takes_one_off_one_list(
    contents: Contents,
    user_id: i32,
    id: Seq<char>,
    reader: i32,
    before: Seq<(String, Fetched<InAppNotification>)>,
    now: Timestamp,
    after: Seq<(String, Fetched<InAppNotification>)>,
    later: Timestamp,
    notif: InAppNotification,
)
    requires
        store::holds_set(contents, task_manager::notif_index_text(user_id)),
        store::holds_set(contents, task_manager::notif_index_text(reader)),
        well_kept(contents, reader),
        truthful(contents, reader, before),
        asks_for_index(contents, reader, before),
        ({
            let pruned = store::run_all(
                contents,
                task_manager::stale_notification_ops(reader, before, now),
            );
            let dismissed = store::run_all(
                pruned,
                task_manager::remove_notification_ops(user_id, id),
            );
            &&& truthful(dismissed, reader, after)
            &&& asks_for_index(dismissed, reader, after)
        }),
        task_manager::lives(notif, later) == task_manager::lives(notif, now),
    ensures
        listed(after, later).contains(notif) <==> listed(before, now).contains(notif) && (reader
            == user_id ==> notif.id@ != id),
{
    let index = task_manager::notif_index_text(reader);
    let pruned = store::run_all(
        contents,
        task_manager::stale_notification_ops(reader, before, now),
    );
    let dismissed = store::run_all(pruned, task_manager::remove_notification_ops(user_id, id));
    law_listing_prunes(contents, reader, before, now);
    if reader != user_id {
        let other = task_manager::notif_index_text(user_id);
        law_indexes_are_per_user(reader, user_id);
        assert(!is_notif_key(reader, other)) by {
            if is_notif_key(reader, other) {
                let n = choose|n: Seq<char>|
                    other == #[trigger] task_manager::notif_key_text(reader, n);
                law_notification_keys_stand_apart(reader, n, user_id);
            }
        }
        assert(untouched(contents, pruned, other));
    }
    law_dismissed_notification_is_gone(pruned, user_id, id);
    law_notification_keys_stand_apart(user_id, id, reader);
    if reader != user_id {
        assert(untouched(pruned, dismissed, index));
    }
    assert forall|n: Seq<char>|
        #![trigger task_manager::notif_key_text(reader, n)]
        store::notification_at(dismissed, task_manager::notif_key_text(reader, n)) == if reader
            == user_id && n == id {
            Fetched::Missing
        } else {
            store::notification_at(pruned, task_manager::notif_key_text(reader, n))
        } by {
        let key = task_manager::notif_key_text(reader, n);
        if key == task_manager::notif_key_text(user_id, id) {
            law_notification_keys_are_distinct(reader, n, user_id, id);
        } else {
            law_notification_keys_stand_apart(reader, n, user_id);
            assert(untouched(pruned, dismissed, key));
        }
    }
    assert(well_kept(dismissed, reader));
    lemma_listed(contents, reader, before, now, notif);
    lemma_listed(dismissed, reader, after, later, notif);
    if task_manager::lives(notif, now) {
        assert(store::members_of(pruned, index).contains(notif.id@) ==> store::members_of(
            contents,
            index,
        ).contains(notif.id@));
        assert(keeps(contents, reader, notif) ==> keeps(pruned, reader, notif));
        assert(keeps(pruned, reader, notif) ==> keeps(contents, reader, notif));
        assert(store::members_of(dismissed, index).contains(notif.id@) <==> store::members_of(
            pruned,
            index,
        ).contains(notif.id@) && !(reader == user_id && notif.id@ == id));
    }
}

/// A list names no notification twice, where each id was asked for once.
pub proof fn law_list_names_none_twice(
    contents: Contents,
    user_id: i32,
    replies: Seq<(String, Fetched<InAppNotification>)>,
    now: Timestamp,
)
    requires
        well_kept(contents, user_id),
        honest(contents, user_id, replies),
        forall|i: int, j: int|
            0 <= i < j < replies.len() ==> (#[trigger] replies[i]).0@ != (
            #[trigger] replies[j]).0@,
    ensures
        listed(replies, now).no_duplicates(),
{
    let live = task_manager::live_notifications(replies, now);
    lemma_live_distinct(contents, user_id, replies, now);
    crate::order::law_ordering_keeps_items(live);
    live.lemma_multiset_has_no_duplicates();
    listed(replies, now).lemma_multiset_has_no_duplicates_conv();
}

proof fn lemma_live_distinct(
    contents: Contents,
    user_id: i32,
    replies: Seq<(String, Fetched<InAppNotification>)>,
    now: Timestamp,
)
    requires
        well_kept(contents, user_id),
        honest(contents, user_id, replies),
        forall|i: int, j: int|
            0 <= i < j < replies.len() ==> (#[trigger] replies[i]).0@ != (
            #[trigger] replies[j]).0@,
    ensures
        task_manager::live_notifications(replies, now).no_duplicates(),
    decreases replies.len(),
{
    if replies.len() > 0 {
        let rest = replies.drop_last();
        let last = replies.last();
        assert forall|i: int| 0 <= i < rest.len() implies (#[trigger] rest[i]).1 is Failed
            || rest[i].1 == store::notification_at(
            contents,
            task_manager::notif_key_text(user_id, rest[i].0@),
        ) by {
            assert(rest[i] == replies[i]);
        }
        lemma_live_distinct(contents, user_id, rest, now);
        let a = task_manager::live_notifications(rest, now);
        let b = task_manager::kept_notification(last.1, now);
        if b.len() > 0 {
            let n = b[0];
            lemma_live(rest, now, n);
            assert(last == replies[replies.len() - 1]);
            let last_key = task_manager::notif_key_text(user_id, last.0@);
            assert(store::notification_at(contents, last_key) == Fetched::Found(n));
            if a.contains(n) {
                let j = choose|j: int|
                    0 <= j < rest.len() && (#[trigger] rest[j]).1 == Fetched::Found(n);
                let key = task_manager::notif_key_text(user_id, rest[j].0@);
                assert(store::notification_at(contents, key) == Fetched::Found(n));
                assert(replies[j] == rest[j]);
                assert(false);
            }
            assert(a + b =~= a.push(n));
        } else {
            assert(a + b =~= a);
        }
    }
}

/// Marking a notification as read changes that mark and nothing else: afterwards the store
/// holds it, read, under the key it had.
pub proof fn law_marking_read_keeps_the_rest(
    contents: Contents,
    notif: InAppNotification,
    ttl_secs: u64,
)
    requires
        store::holds_set(contents, task_manager::notif_index_text(notif.user_id)),
    ensures
        ({
            let read = InAppNotification { read: true, ..notif };
            let after = store::run_all(
                contents,
                task_manager::save_notification_ops(read, ttl_secs),
            );
            let key = task_manager::notif_key_text(notif.user_id, notif.id@);
            let index = task_manager::notif_index_text(notif.user_id);
            &&& store::notification_at(after, key) == Fetched::Found(read)
            &&& store::members_of(contents, index).contains(notif.id@) ==> store::members_of(
                after,
                index,
            ) == store::members_of(contents, index)
            &&& forall|k: Seq<char>|
                k != key && k != index ==> #[trigger] untouched(contents, after, k)
        }),
{
    let read = InAppNotification { read: true, ..notif };
    law_saved_notification_is_found(contents, read, ttl_secs);
    let index = task_manager::notif_index_text(notif.user_id);
    if store::members_of(contents, index).contains(notif.id@) {
        assert(store::members_of(contents, index).insert(notif.id@) =~= store::members_of(
            contents,
            index,
        ));
    }
}

/// A list of tasks holds exactly those that were found.
pub proof fn law_task_list_is_exact(replies: Seq<(String, Fetched<TaskInfo>)>, task: TaskInfo)
    ensures
        crate::order::ordered(task_manager::found_tasks(replies)).contains(task) <==> exists|
            i: int,
        |
            0 <= i < replies.len() && (#[trigger] replies[i]).1 == Fetched::Found(task),
{
    lemma_found(replies, task);
    lemma_ordered_contains(task_manager::found_tasks(replies), task);
}

proof fn lemma_found(replies: Seq<(String, Fetched<TaskInfo>)>, task: TaskInfo)
    ensures
        task_manager::found_tasks(replies).contains(task) <==> exists|i: int|
            0 <= i < replies.len() && (#[trigger] replies[i]).1 == Fetched::Found(task),
    decreases replies.len(),
{
    let found = task_manager::found_tasks(replies);
    if replies.len() > 0 {
        let rest = replies.drop_last();
        let last = replies.last();
        lemma_found(rest, task);
        let a = task_manager::found_tasks(rest);
        let b = task_manager::kept_task(last.1);
        assert(found == a + b);
        if a.contains(task) {
            let i = choose|i: int| 0 <= i < a.len() && a[i] == task;
            assert(found[i] == task);
            let j = choose|j: int|
                0 <= j < rest.len() && (#[trigger] rest[j]).1 == Fetched::Found(task);
            assert(replies[j].1 == Fetched::Found(task));
        }
        if b.contains(task) {
            assert(found[a.len() as int] == task);
            assert(replies[replies.len() - 1].1 == Fetched::Found(task));
        }
        if found.contains(task) && !a.contains(task) {
            let i = choose|i: int| 0 <= i < found.len() && found[i] == task;
            assert(i >= a.len()) by {
                if i < a.len() {
                    assert(a[i] == task);
                }
            }
            assert(b[i - a.len()] == task);
        }
        if exists|i: int|
            0 <= i < replies.len() && (#[trigger] replies[i]).1 == Fetched::Found(task) {
            let i = choose|i: int|
                0 <= i < replies.len() && (#[trigger] replies[i]).1 == Fetched::Found(task);
            if i < rest.len() {
                assert(rest[i].1 == Fetched::Found(task));
            } else {
                assert(b[0] == task);
            }
        }
    }
}

/// Whether replies say what the store holds of tasks.
pub open spec fn truthful_tasks(
    contents: Contents,
    replies: Seq<(String, Fetched<TaskInfo>)>,
) -> bool {
    forall|i: int|
        0 <= i < replies.len() ==> (#[trigger] replies[i]).1 == store::task_at(
            contents,
            task_manager::task_key_text(replies[i].0@),
        )
}

/// Whether each reply says what the store holds of tasks, or that the store did not answer.
pub open spec fn honest_tasks(
    contents: Contents,
    replies: Seq<(String, Fetched<TaskInfo>)>,
) -> bool {
    forall|i: int|
        0 <= i < replies.len() ==> (#[trigger] replies[i]).1 is Failed || replies[i].1
            == store::task_at(contents, task_manager::task_key_text(replies[i].0@))
}

/// A task that was saved is listed whenever the ids in the index of its user are asked for.
pub proof fn law_saved_task_is_listed(
    contents: Contents,
    task: TaskInfo,
    replies: Seq<(String, Fetched<TaskInfo>)>,
)
    requires
        task_manager::task_key_text(task.id@) != task_manager::task_index_text(task.user_id),
        store::holds_set(contents, task_manager::task_index_text(task.user_id)),
        ({
            let after = store::run_all(contents, task_manager::save_task_ops(task));
            &&& truthful_tasks(after, replies)
            &&& forall|id: Seq<char>| #[trigger]
                store::members_of(after, task_manager::task_index_text(task.user_id)).contains(id)
                    ==> asked_for(replies, id)
        }),
    ensures
        crate::order::ordered(task_manager::found_tasks(replies)).contains(task),
{
    let after = store::run_all(contents, task_manager::save_task_ops(task));
    law_saved_task_is_found(contents, task);
    assert(store::members_of(after, task_manager::task_index_text(task.user_id)).contains(
        task.id@,
    ));
    let i = choose|i: int| 0 <= i < replies.len() && (#[trigger] replies[i]).0@ == task.id@;
    assert(replies[i].1 == Fetched::Found(task));
    law_task_list_is_exact(replies, task);
}

/// Listing tasks touches no task, only the index of the user: it drops the entries of tasks
/// that are gone or cannot be read, and keeps those that the store did not answer for.
pub proof fn law_listing_tasks_prunes(
    contents: Contents,
    user_id: i32,
    replies: Seq<(String, Fetched<TaskInfo>)>,
)
    requires
        store::holds_set(contents, task_manager::task_index_text(user_id)),
        honest_tasks(contents, replies),
    ensures
        ({
            let after = store::run_all(
                contents,
                task_manager::stale_task_ops(user_id, replies),
            );
            let index = task_manager::task_index_text(user_id);
            &&& store::holds_set(after, index)
            &&& forall|id: Seq<char>| #[trigger]
                store::members_of(after, index).contains(id) <==> store::members_of(
                    contents,
                    index,
                ).contains(id) && (answered(replies, id) ==> match store::task_at(
                    contents,
                    task_manager::task_key_text(id),
                ) {
                    Fetched::Found(_) | Fetched::Failed => true,
                    _ => false,
                })
            &&& forall|k: Seq<char>| k != index ==> #[trigger] untouched(contents, after, k)
        }),
    decreases replies.len(),
{
    let index = task_manager::task_index_text(user_id);
    let after = store::run_all(contents, task_manager::stale_task_ops(user_id, replies));
    if replies.len() == 0 {
        assert(after == contents);
    } else {
        let rest = replies.drop_last();
        let last = replies.last();
        assert(honest_tasks(contents, rest)) by {
            assert forall|i: int| 0 <= i < rest.len() implies (#[trigger] rest[i]).1 is Failed
                || rest[i].1 == store::task_at(
                contents,
                task_manager::task_key_text(rest[i].0@),
            ) by {
                assert(rest[i] == replies[i]);
            }
        }
        law_listing_tasks_prunes(contents, user_id, rest);
        let before = task_manager::stale_task_ops(user_id, rest);
        let mid = store::run_all(contents, before);
        let tail = task_manager::drop_task_ops(user_id, last.0@, last.1);
        lemma_run_split(contents, before, tail);
        assert(last == replies[replies.len() - 1]);
        lemma_answered(replies);
        if tail.len() > 0 {
            lemma_run_one(mid, tail[0]);
            assert(tail =~= seq![tail[0]]);
            assert(store::members_of(after, index) =~= store::members_of(mid, index).remove(
                last.0@,
            ));
        } else {
            assert(after == mid);
        }
        assert forall|id: Seq<char>| #[trigger]
            store::members_of(after, index).contains(id) <==> store::members_of(
                contents,
                index,
            ).contains(id) && (answered(replies, id) ==> match store::task_at(
                contents,
                task_manager::task_key_text(id),
            ) {
                Fetched::Found(_) | Fetched::Failed => true,
                _ => false,
            }) by {
            assert(answered(replies, id) == (answered(rest, id) || id == last.0@ && !(last.1 is
                Failed)));
            assert(store::members_of(mid, index).contains(id) <==> store::members_of(
                contents,
                index,
            ).contains(id) && (answered(rest, id) ==> match store::task_at(
                contents,
                task_manager::task_key_text(id),
            ) {
                Fetched::Found(_) | Fetched::Failed => true,
                _ => false,
            }));
        }
        assert forall|k: Seq<char>| k != index implies #[trigger] untouched(
            contents,
            after,
            k,
        ) by {
            assert(untouched(contents, mid, k));
        }
    }
}

// ---- lives of tasks and notifications ----

/// A new notification lives at once, and for a day if it informs, for thirty days if it
/// warns or tells of an error; from then on it is dead.
pub proof fn law_notification_lives_for_its_term(
    notif: InAppNotification,
    user_id: i32,
    category: String,
    severity: MsgSeverity,
    title: String,
    body: Option<String>,
    episode_id: Option<i32>,
    podcast_id: Option<i32>,
    art_url: Option<String>,
    link: Option<String>,
    created: Timestamp,
    now: Timestamp,
)
    requires
        task_manager::is_new_notification(
            notif,
            user_id,
            category,
            severity,
            title,
            body,
            episode_id,
            podcast_id,
            art_url,
            link,
            created,
        ),
    ensures
        task_manager::lives(notif, created),
        now.second() < created.second() + task_manager::ttl_secs_of(severity)
            ==> task_manager::lives(notif, now),
        now.second() > created.second() + task_manager::ttl_secs_of(severity)
            ==> !task_manager::lives(notif, now),
        task_manager::ttl_secs_of(severity) == if severity == MsgSeverity::Info || severity
            == MsgSeverity::Success {
            86_400
        } else {
            30 * 86_400
        },
{
}

/// The index of a user outlives each of its entries.
pub proof fn law_indexes_outlive_their_entries(severity: MsgSeverity)
    ensures
        TASK_INDEX_TTL_SECS > TASK_TTL_SECS,
        NOTIF_INDEX_TTL_SECS > task_manager::ttl_secs_of(severity),
        task_manager::ttl_secs_of(severity) >= 60,
{
}

/// Progress that is a number stays between zero and a hundred.
pub proof fn law_progress_stays_within_bounds(
    task: TaskInfo,
    progress: Double,
    message: Option<String>,
    now: Timestamp,
)
    requires
        !progress.nan(),
    ensures
        ({
            let p = task_manager::progressed(task, progress, message, now).progress;
            &&& !p.nan()
            &&& !p.below(Double { bits: ZERO })
            &&& !(Double { bits: HUNDRED }).below(p)
        }),
{
}

/// Progress starts a pending task and changes the status of no other.
pub proof fn law_progress_changes_status_once(
    task: TaskInfo,
    progress: Double,
    message: Option<String>,
    now: Timestamp,
)
    ensures
        ({
            let after = task_manager::progressed(task, progress, message, now).status;
            &&& task.status != TaskStatus::Pending ==> after == task.status
            &&& task.status == TaskStatus::Pending ==> (after == TaskStatus::Running
                || after == TaskStatus::Pending)
            &&& after == TaskStatus::Running && task.status == TaskStatus::Pending <==> (Double {
                bits: ZERO,
            }).below(progress) && task.status == TaskStatus::Pending
        }),
{
}

/// Whether a task has ended only if it carries the instant at which it did.
pub open spec fn ending_is_dated(task: TaskInfo) -> bool {
    (task.status == TaskStatus::Completed || task.status == TaskStatus::Failed)
        <==> task.completed_at is Some
}

/// From its creation on, a task carries an instant of completion exactly if it has ended.
pub proof fn law_ended_tasks_are_dated(
    task: TaskInfo,
    texts: (String, String),
    user_id: i32,
    options: (Option<String>, Option<String>, Option<String>, Option<String>),
    total: Option<i32>,
    progress: Double,
    result: Option<serde_json::Value>,
    t: Timestamp,
    u: Timestamp,
)
    requires
        ending_is_dated(task),
    ensures
        ending_is_dated(
            task_manager::new_task(texts.0, texts.1, user_id, options.0, options.1, t, u),
        ),
        ending_is_dated(
            task_manager::displayed(task, options.0, options.1, options.2, options.3, total, t),
        ),
        ending_is_dated(task_manager::named(task, options.0, options.1, t)),
        ending_is_dated(task_manager::progressed(task, progress, options.0, t)),
        ending_is_dated(task_manager::completed(task, result, options.0, t, u)),
        ending_is_dated(task_manager::failed(task, texts.0, t, u)),
{
}

/// A plain task and a download task made of the same things differ only in their ids, their
/// instants and the names of episode and podcast; the updates that tell of them differ only in
/// the ids and the instants at which they started, and neither has details.
pub proof fn law_creations_differ_in_names_only(
    instance_id: String,
    plain: Plan,
    download: Plan,
    ids: (String, String),
    task_type: String,
    user_id: i32,
    item_id: Option<i32>,
    episode_title: Option<String>,
    podcast_name: Option<String>,
    plain_times: (Timestamp, Timestamp),
    download_times: (Timestamp, Timestamp),
)
    requires
        task_manager::stored_and_told(
            plain,
            instance_id,
            task_manager::new_task(
                ids.0,
                task_type,
                user_id,
                None,
                None,
                plain_times.0,
                plain_times.1,
            ),
            item_id,
        ),
        task_manager::stored_and_told(
            download,
            instance_id,
            task_manager::new_task(
                ids.1,
                task_type,
                user_id,
                episode_title,
                podcast_name,
                download_times.0,
                download_times.1,
            ),
            item_id,
        ),
    ensures
        ({
            let a = task_manager::new_task(
                ids.0,
                task_type,
                user_id,
                None,
                None,
                plain_times.0,
                plain_times.1,
            );
            &&& plain.saves(a)
            &&& download.saves(
                TaskInfo {
                    id: ids.1,
                    created_at: download_times.0,
                    updated_at: download_times.1,
                    episode_title,
                    podcast_name,
                    ..a
                },
            )
        }),
        plain.announces(instance_id),
        download.announces(instance_id),
        download.update() == (TaskUpdate {
            task_id: ids.1,
            started_at: download.update().started_at,
            details: download.update().details,
            ..plain.update()
        }),
        task_manager::no_details(plain.update().details),
        task_manager::no_details(download.update().details),
{
}

/// A plan whose commands failed raises nothing; one whose commands were all run raises its
/// update once here and once, stamped with this replica, elsewhere.
pub proof fn law_nothing_is_raised_unless_stored(plan: Plan, instance_id: String)
    requires
        plan.announces(instance_id),
    ensures
        plan.raised(false) == Seq::<Signal>::empty(),
        plan.raised(true) == task_manager::update_signals(instance_id, plan.update()),
{
}

/// No request changes the id, the user, the type or the creation of a task.
pub proof fn law_identity_of_a_task_is_kept(
    task: TaskInfo,
    reason: String,
    options: (Option<String>, Option<String>, Option<String>, Option<String>),
    total: Option<i32>,
    progress: Double,
    result: Option<serde_json::Value>,
    t: Timestamp,
    u: Timestamp,
)
    ensures
        same_task(
            task,
            task_manager::displayed(task, options.0, options.1, options.2, options.3, total, t),
        ),
        same_task(task, task_manager::named(task, options.0, options.1, t)),
        same_task(task, task_manager::progressed(task, progress, options.0, t)),
        same_task(task, task_manager::completed(task, result, options.0, t, u)),
        same_task(task, task_manager::failed(task, reason, t, u)),
{
}

/// Whether two states belong to one task.
pub open spec fn same_task(a: TaskInfo, b: TaskInfo) -> bool {
    &&& a.id == b.id
    &&& a.user_id == b.user_id
    &&& a.task_type == b.task_type
    &&& a.created_at == b.created_at
}

} // verus!
