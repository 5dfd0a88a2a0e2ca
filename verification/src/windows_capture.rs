//! App windows that can be captured: which windows are listed, in what
//! order, and how a window is looked up by its handle.

use vstd::prelude::*;
use crate::text::{chars_of, chars_lt, seq_char_lt, lemma_seq_char_lt_irreflexive, lemma_seq_char_lt_total, lemma_seq_char_lt_transitive};

verus! {

/// A top-level app window: its handle, title and owning process.
#[derive(Debug, PartialEq, Eq)]
pub struct WindowTarget {
    pub hwnd: usize,
    pub title: String,
    pub process_id: u32,
}

impl Clone for WindowTarget {
    fn clone(&self) -> (r: Self)
        ensures
            r == *self,
    {
        WindowTarget { hwnd: self.hwnd, title: self.title.clone(), process_id: self.process_id }
    }
}

/// The longest window title, in UTF-16 units, that is still listed.
pub const MAX_TITLE_LENGTH: i32 = 16384;

/// Whether a window with these properties is offered for capture: it is
/// visible, not minimized, and has a title of 1 to 16384 UTF-16 units.
pub fn is_capturable_window(visible: bool, iconic: bool, title_length: i32) -> (r: bool)
    ensures
        r == (visible && !iconic && 0 < title_length <= MAX_TITLE_LENGTH),
{
    visible && !iconic && 0 < title_length && title_length <= MAX_TITLE_LENGTH
}

/// The window to list once its title has been read: none where no title
/// character could be copied.
pub fn collected_window(hwnd: usize, title: String, copied: i32, process_id: u32) -> (r: Option<
    WindowTarget,
>)
    ensures
        copied <= 0 ==> r is None,
        copied > 0 ==> r == Some(WindowTarget { hwnd, title, process_id }),
{
    if copied <= 0 {
        None
    } else {
        Some(WindowTarget { hwnd, title, process_id })
    }
}

/// The first window in `windows` with handle `hwnd`.
pub open spec fn spec_find_window(windows: Seq<WindowTarget>, hwnd: usize) -> Option<WindowTarget>
    decreases windows.len(),
{
    if windows.len() == 0 {
        None
    } else if windows[0].hwnd == hwnd {
        Some(windows[0])
    } else {
        spec_find_window(windows.drop_first(), hwnd)
    }
}

/// Looks up the window with handle `hwnd` in the listed `windows`; the
/// first such window where several share it.
pub fn find_window(windows: &[WindowTarget], hwnd: usize) -> (r: Option<WindowTarget>)
    ensures
        r == spec_find_window(windows@, hwnd),
{
    let n = windows.len();
    let mut i: usize = 0;
    assert(windows@.skip(0) =~= windows@);
    while i < n
        invariant
            n == windows@.len(),
            i <= n,
            spec_find_window(windows@, hwnd) == spec_find_window(windows@.skip(i as int), hwnd),
        decreases n - i,
    {
        assert(windows@.skip(i as int)[0] == windows@[i as int]);
        if windows[i].hwnd == hwnd {
            return Some(windows[i].clone());
        }
        assert(windows@.skip(i as int).drop_first() =~= windows@.skip(i + 1));
        i = i + 1;
    }
    assert(windows@.skip(n as int).len() == 0);
    None
}

/// Names what `str::to_lowercase` returns: the string lower-cased by the
/// Unicode lower-case mapping, where a capital sigma at the end of a word
/// becomes a final sigma.
pub uninterp spec fn lowercase(s: Seq<char>) -> Seq<char>;

/// Calls `str::to_lowercase`; the result is `lowercase` of the argument.
#[verifier::external_body]
fn to_lowercase(s: &str) -> (r: String)
    ensures
        r@ == lowercase(s@),
{
    s.to_lowercase()
}

/// The key by which windows are listed: the lower-cased title.
pub open spec fn title_key(w: WindowTarget) -> Seq<char> {
    lowercase(w.title@)
}

/// The listing keys of `ws`, one per window.
pub open spec fn title_keys(ws: Seq<WindowTarget>) -> Seq<Seq<char>> {
    Seq::new(ws.len(), |i: int| title_key(ws[i]))
}

/// Whether, in a stable sort by `keys`, the item at index `i` comes before
/// the one at index `j`.
pub open spec fn key_precedes(keys: Seq<Seq<char>>, i: int, j: int) -> bool {
    ||| seq_char_lt(keys[i], keys[j])
    ||| (keys[i] == keys[j] && i < j)
}

/// `order` lists every index of `keys` once, in the order of a stable sort
/// by the keys.
pub open spec fn is_stable_order(keys: Seq<Seq<char>>, order: Seq<int>) -> bool {
    &&& order.len() == keys.len()
    &&& forall|k: int| 0 <= k < order.len() ==> 0 <= #[trigger] order[k] < keys.len()
    &&& order.no_duplicates()
    &&& forall|a: int, b: int|
        0 <= a < b < order.len() ==> key_precedes(keys, #[trigger] order[a], #[trigger] order[b])
}

/// `sorted` is `ws` sorted stably by `keys` (the key of `ws[i]` is
/// `keys[i]`).
pub open spec fn is_stably_sorted(
    ws: Seq<WindowTarget>,
    keys: Seq<Seq<char>>,
    sorted: Seq<WindowTarget>,
) -> bool {
    exists|order: Seq<int>|
        {
            &&& is_stable_order(keys, order)
            &&& sorted.len() == order.len()
            &&& forall|k: int| 0 <= k < sorted.len() ==> #[trigger] sorted[k] == ws[order[k]]
        }
}

/// Whether the window belongs to a process other than `current_process_id`.
pub open spec fn is_foreign(w: WindowTarget, current_process_id: u32) -> bool {
    w.process_id != current_process_id
}

/// The windows of `raw` that belong to other processes, in their order.
pub open spec fn foreign_windows(raw: Seq<WindowTarget>, current_process_id: u32) -> Seq<
    WindowTarget,
> {
    raw.filter(|w: WindowTarget| is_foreign(w, current_process_id))
}

proof fn lemma_key_precedes_strict(keys: Seq<Seq<char>>, i: int)
    ensures
        !key_precedes(keys, i, i),
{
    lemma_seq_char_lt_irreflexive(keys[i]);
}

/// Keeps the windows of other processes.
fn retain_foreign(raw: Vec<WindowTarget>, current_process_id: u32) -> (r: Vec<WindowTarget>)
    ensures
        r@ == foreign_windows(raw@, current_process_id),
{
    let ghost pred = |w: WindowTarget| is_foreign(w, current_process_id);
    let mut kept: Vec<WindowTarget> = Vec::new();
    let n = raw.len();
    let mut i: usize = 0;
    assert(raw@.take(0).filter(pred) =~= Seq::<WindowTarget>::empty()) by {
        reveal(Seq::filter);
    }
    while i < n
        invariant
            n == raw@.len(),
            i <= n,
            pred == (|w: WindowTarget| is_foreign(w, current_process_id)),
            kept@ == raw@.take(i as int).filter(pred),
        decreases n - i,
    {
        assert(raw@.take(i + 1).drop_last() =~= raw@.take(i as int));
        assert(raw@.take(i + 1).last() == raw@[i as int]);
        reveal(Seq::filter);
        if raw[i].process_id != current_process_id {
            kept.push(raw[i].clone());
        }
        i = i + 1;
    }
    assert(raw@.take(n as int) =~= raw@);
    kept
}

/// The capturable windows of other processes than `current_process_id`,
/// taken from `raw` in the order the system listed them, and sorted
/// stably by lower-cased title.
pub fn enumerate_windows(raw: Vec<WindowTarget>, current_process_id: u32) -> (r: Vec<WindowTarget>)
    ensures
        is_stably_sorted(
            foreign_windows(raw@, current_process_id),
            title_keys(foreign_windows(raw@, current_process_id)),
            r@,
        ),
        r@.len() == foreign_windows(raw@, current_process_id).len(),
        forall|k: int| 0 <= k < r@.len() ==> (#[trigger] r@[k]).process_id != current_process_id,
        forall|a: int, b: int|
            0 <= a < b < r@.len() ==> !seq_char_lt(
                title_key(#[trigger] r@[b]),
                title_key(#[trigger] r@[a]),
            ),
{
    let ws = retain_foreign(raw, current_process_id);
    let n = ws.len();
    let mut keys: Vec<String> = Vec::new();
    let mut k: usize = 0;
    while k < n
        invariant
            n == ws@.len(),
            k <= n,
            keys@.len() == k,
            forall|j: int| 0 <= j < k ==> #[trigger] keys@[j]@ == title_key(ws@[j]),
        decreases n - k,
    {
        keys.push(to_lowercase(ws[k].title.as_str()));
        k = k + 1;
    }
    let ghost wsv = ws@;
    assert(key_views(keys@) =~= title_keys(wsv));
    let sorted = sort_windows_by_keys(ws, &keys);
    proof {
        let kv = title_keys(wsv);
        let order = choose|order: Seq<int>|
            {
                &&& is_stable_order(kv, order)
                &&& sorted@.len() == order.len()
                &&& forall|k: int| 0 <= k < sorted@.len() ==> #[trigger] sorted@[k] == wsv[order[k]]
            };
        assert forall|k: int| 0 <= k < sorted@.len() implies (#[trigger] sorted@[k]).process_id
            != current_process_id by {
            assert(0 <= order[k] < wsv.len());
            assert(is_foreign(wsv[order[k]], current_process_id));
        }
        assert forall|a: int, b: int| 0 <= a < b < sorted@.len() implies !seq_char_lt(
            title_key(#[trigger] sorted@[b]),
            title_key(#[trigger] sorted@[a]),
        ) by {
            assert(key_precedes(kv, order[a], order[b]));
            assert(sorted@[a] == wsv[order[a]]);
            assert(sorted@[b] == wsv[order[b]]);
            assert(kv[order[a]] == title_key(wsv[order[a]]));
            assert(kv[order[b]] == title_key(wsv[order[b]]));
            if seq_char_lt(kv[order[b]], kv[order[a]]) {
                if seq_char_lt(kv[order[a]], kv[order[b]]) {
                    lemma_seq_char_lt_transitive(kv[order[a]], kv[order[b]], kv[order[a]]);
                    lemma_seq_char_lt_irreflexive(kv[order[a]]);
                } else {
                    lemma_seq_char_lt_irreflexive(kv[order[a]]);
                }
            }
        }
    }
    sorted
}

/// The text views of a list of keys.
pub open spec fn key_views(keys: Seq<String>) -> Seq<Seq<char>> {
    keys.map_values(|k: String| k@)
}

/// Sorts `ws` stably by `keys`, where `keys[i]` is the key of `ws[i]`.
pub fn sort_windows_by_keys(ws: Vec<WindowTarget>, keys: &Vec<String>) -> (r: Vec<WindowTarget>)
    requires
        keys@.len() == ws@.len(),
    ensures
        is_stably_sorted(ws@, key_views(keys@), r@),
{
    let n = ws.len();
    let ghost kv = key_views(keys@);
    let mut key_chars: Vec<Vec<char>> = Vec::new();
    let mut k: usize = 0;
    while k < n
        invariant
            n == ws@.len(),
            keys@.len() == n,
            kv == key_views(keys@),
            k <= n,
            key_chars@.len() == k,
            forall|j: int| 0 <= j < k ==> #[trigger] key_chars@[j]@ == kv[j],
        decreases n - k,
    {
        key_chars.push(chars_of(keys[k].as_str()));
        k = k + 1;
    }
    let mut order: Vec<usize> = Vec::new();
    let mut i: usize = 0;
    while i < n
        invariant
            n == ws@.len(),
            kv.len() == n,
            key_chars@.len() == n,
            forall|j: int| 0 <= j < n ==> #[trigger] key_chars@[j]@ == kv[j],
            i <= n,
            order@.len() == i,
            forall|a: int| 0 <= a < order@.len() ==> #[trigger] order@[a] < i,
            forall|a: int, b: int|
                0 <= a < b < order@.len() ==> key_precedes(
                    kv,
                    #[trigger] order@[a] as int,
                    #[trigger] order@[b] as int,
                ),
        decreases n - i,
    {
        // the first position whose key is strictly greater than the key of i
        let mut pos: usize = 0;
        while pos < order.len() && !chars_lt(&key_chars[i], &key_chars[order[pos]])
            invariant
                n == ws@.len(),
                kv.len() == n,
                key_chars@.len() == n,
                forall|j: int| 0 <= j < n ==> #[trigger] key_chars@[j]@ == kv[j],
                i < n,
                order@.len() == i,
                forall|a: int| 0 <= a < order@.len() ==> #[trigger] order@[a] < i,
                pos <= order@.len(),
                forall|a: int|
                    0 <= a < pos ==> !seq_char_lt(kv[i as int], kv[#[trigger] order@[a] as int]),
            decreases order@.len() - pos,
        {
            pos = pos + 1;
        }
        proof {
            assert forall|a: int| 0 <= a < pos implies key_precedes(
                kv,
                order@[a] as int,
                i as int,
            ) by {
                lemma_seq_char_lt_total(kv[i as int], kv[order@[a] as int]);
            }
            if pos < order@.len() {
                assert(seq_char_lt(kv[i as int], kv[order@[pos as int] as int]));
                assert forall|b: int| pos <= b < order@.len() implies seq_char_lt(
                    kv[i as int],
                    kv[order@[b] as int],
                ) by {
                    if b > pos {
                        assert(key_precedes(kv, order@[pos as int] as int, order@[b] as int));
                        if seq_char_lt(kv[order@[pos as int] as int], kv[order@[b] as int]) {
                            lemma_seq_char_lt_transitive(
                                kv[i as int],
                                kv[order@[pos as int] as int],
                                kv[order@[b] as int],
                            );
                        }
                    }
                }
            }
        }
        let ghost old_order = order@;
        order.insert(pos, i);
        proof {
            assert forall|a: int, b: int| 0 <= a < b < order@.len() implies key_precedes(
                kv,
                #[trigger] order@[a] as int,
                #[trigger] order@[b] as int,
            ) by {
                if b < pos {
                    assert(order@[a] == old_order[a] && order@[b] == old_order[b]);
                } else if b == pos {
                    assert(order@[a] == old_order[a]);
                } else if a < pos {
                    assert(order@[a] == old_order[a] && order@[b] == old_order[b - 1]);
                } else if a == pos {
                    assert(order@[b] == old_order[b - 1]);
                } else {
                    assert(order@[a] == old_order[a - 1] && order@[b] == old_order[b - 1]);
                }
            }
            assert forall|a: int| 0 <= a < order@.len() implies #[trigger] order@[a] < i + 1 by {
                if a < pos {
                    assert(order@[a] == old_order[a]);
                } else if a > pos {
                    assert(order@[a] == old_order[a - 1]);
                }
            }
        }
        i = i + 1;
    }
    let mut sorted: Vec<WindowTarget> = Vec::new();
    let mut t: usize = 0;
    while t < n
        invariant
            n == ws@.len(),
            order@.len() == n,
            forall|a: int| 0 <= a < order@.len() ==> #[trigger] order@[a] < n,
            t <= n,
            sorted@.len() == t,
            forall|c: int| 0 <= c < t ==> #[trigger] sorted@[c] == ws@[order@[c] as int],
        decreases n - t,
    {
        sorted.push(ws[order[t]].clone());
        t = t + 1;
    }
    proof {
        let witness = order@.map_values(|x: usize| x as int);
        assert forall|a: int, b: int|
            0 <= a < witness.len() && 0 <= b < witness.len() && a != b implies witness[a]
            != witness[b] by {
            if a < b {
                assert(key_precedes(kv, order@[a] as int, order@[b] as int));
            } else {
                assert(key_precedes(kv, order@[b] as int, order@[a] as int));
            }
            if witness[a] == witness[b] {
                lemma_key_precedes_strict(kv, witness[a]);
            }
        }
        assert(forall|a: int, b: int|
            0 <= a < b < witness.len() ==> key_precedes(
                kv,
                #[trigger] order@[a] as int,
                #[trigger] order@[b] as int,
            ));
        assert(forall|a: int| 0 <= a < witness.len() ==> #[trigger] witness[a] == order@[a] as int);
        assert(is_stable_order(kv, witness));
        assert(forall|c: int| 0 <= c < sorted@.len() ==> #[trigger] sorted@[c] == ws@[witness[c]]);
    }
    sorted
}

} // verus!
