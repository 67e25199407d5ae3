//! Laws of extraction, proved over the specifications of `extract`.

use vstd::prelude::*;

use crate::extract::{extract_json, fence_close, fence_open, fenced_json, is_braced};
use crate::model::{intent_name, intent_named, Intent};
use crate::text::{find, find_from, occurs_at, trim};

verus! {

/// The first occurrence of `p` in `s` is at `m` when it stands there and at
/// no earlier index.
proof fn lemma_find_first(s: Seq<char>, p: Seq<char>, m: int)
    requires
        occurs_at(s, p, m),
        forall|i: int| 0 <= i < m ==> !occurs_at(s, p, i),
    ensures
        find(s, p) == Some(m),
{
    lemma_find_from_first(s, p, m, 0);
}

proof fn lemma_find_from_first(s: Seq<char>, p: Seq<char>, m: int, k: int)
    requires
        0 <= k <= m,
        occurs_at(s, p, m),
        forall|i: int| 0 <= i < m ==> !occurs_at(s, p, i),
    ensures
        find_from(s, p, k) == Some(m),
    decreases m - k,
{
    if k < m {
        assert(!occurs_at(s, p, k));
        lemma_find_from_first(s, p, m, k + 1);
    }
}

/// A fenced JSON block in prose: where the opening marker does not occur
/// before the end of `noise`, and the closing marker does not occur before
/// the end of `obj`, the text located in
/// `noise + "```json" + obj + "```" + more` is `obj`, trimmed, whatever
/// `noise` and `more` hold.
pub proof fn lemma_fenced_extraction(noise: Seq<char>, obj: Seq<char>, more: Seq<char>)
    requires
        forall|i: int| 0 <= i < noise.len() ==> !occurs_at(noise + fence_open(), fence_open(), i),
        forall|j: int| 0 <= j < obj.len() ==> !occurs_at(obj + fence_close(), fence_close(), j),
    ensures
        extract_json(noise + fence_open() + obj + fence_close() + more) == Some(trim(obj)),
{
    let raw = noise + fence_open() + obj + fence_close() + more;
    let head = noise + fence_open();
    let n = noise.len() as int;
    let h = head.len() as int;
    assert(raw.subrange(0, h) =~= head);
    assert forall|i: int| 0 <= i < n implies !occurs_at(raw, fence_open(), i) by {
        assert(!occurs_at(head, fence_open(), i));
        assert(i + fence_open().len() <= h);
        if i + fence_open().len() <= raw.len() {
            assert(raw.subrange(i, i + fence_open().len()) =~= head.subrange(
                i,
                i + fence_open().len(),
            ));
        }
    }
    assert(raw.subrange(n, h) =~= fence_open());
    lemma_find_first(raw, fence_open(), n);
    let rest = raw.subrange(h, raw.len() as int);
    let body = obj + fence_close();
    let o = obj.len() as int;
    let b = body.len() as int;
    assert(rest =~= body + more);
    assert(rest.subrange(0, b) =~= body);
    assert forall|j: int| 0 <= j < o implies !occurs_at(rest, fence_close(), j) by {
        assert(!occurs_at(body, fence_close(), j));
        assert(j + fence_close().len() <= b);
        if j + fence_close().len() <= rest.len() {
            assert(rest.subrange(j, j + fence_close().len()) =~= body.subrange(
                j,
                j + fence_close().len(),
            ));
        }
    }
    assert(rest.subrange(o, b) =~= fence_close());
    lemma_find_first(rest, fence_close(), o);
    assert(rest.subrange(0, o) =~= obj);
    assert(fenced_json(raw) == Some(trim(obj)));
}

/// A bare object: text that is already trimmed, starts with `{`, ends with
/// `}` and holds no opening marker is located as it is.
pub proof fn lemma_bare_fallback(t: Seq<char>)
    requires
        trim(t) == t,
        is_braced(t),
        find(t, fence_open()) is None,
    ensures
        extract_json(t) == Some(t),
{
}

/// Intent names read back: the name written for an intent is read as that
/// intent, so no two intents share a name.
pub proof fn lemma_intent_name_round_trip(i: Intent)
    ensures
        intent_named(intent_name(i)) == Some(i),
{
    reveal_strlit("SendEmail");
    reveal_strlit("ScheduleMeeting");
    reveal_strlit("NoAction");
    assert("SendEmail"@.len() != "ScheduleMeeting"@.len());
    assert("SendEmail"@.len() != "NoAction"@.len());
    assert("ScheduleMeeting"@.len() != "NoAction"@.len());
}

} // verus!
