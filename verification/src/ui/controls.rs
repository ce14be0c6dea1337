//! The window's model of its controls: the list of active transfers, and
//! where the list and the log go when the window is resized.
use vstd::prelude::*;

use crate::ui::messages::TransferPhase;

verus! {

/// An active transfer, as the window shows it.
pub struct TransferInfo {
    pub file_id: i64,
    pub label: String,
    pub phase: TransferPhase,
    pub current: u64,
    pub total: u64,
}

/// What the window keeps of its controls: the active transfers, in the order
/// they started.
pub struct AppControls {
    pub transfers: Vec<TransferInfo>,
}

/// `i` is the first position of a transfer with this id.
pub open spec fn first_with_id(s: Seq<TransferInfo>, id: i64, i: int) -> bool {
    &&& 0 <= i < s.len()
    &&& s[i].file_id == id
    &&& forall|j: int| 0 <= j < i ==> s[j].file_id != id
}

/// No transfer has this id.
pub open spec fn lacks_id(s: Seq<TransferInfo>, id: i64) -> bool {
    forall|j: int| 0 <= j < s.len() ==> s[j].file_id != id
}

/// No two transfers share an id.
pub open spec fn ids_distinct(s: Seq<TransferInfo>) -> bool {
    forall|i: int, j: int| 0 <= i < j < s.len() ==> s[i].file_id != s[j].file_id
}

/// A transfer shown afresh: its progress back at zero.
pub open spec fn restarted(info: TransferInfo) -> TransferInfo {
    TransferInfo { current: 0, total: 0, ..info }
}

/// A transfer with new progress and phase.
pub open spec fn progressed(t: TransferInfo, current: u64, total: u64, phase: TransferPhase) -> TransferInfo {
    TransferInfo { current, total, phase, ..t }
}

/// The position of the first transfer with this id, or the length when there is none.
fn find_transfer(s: &Vec<TransferInfo>, id: i64) -> (i: usize)
    ensures
        i <= s.len(),
        i < s.len() ==> first_with_id(s@, id, i as int),
        i == s.len() ==> lacks_id(s@, id),
{
    let mut i: usize = 0;
    while i < s.len()
        invariant
            i <= s.len(),
            forall|j: int| 0 <= j < i ==> s@[j].file_id != id,
        decreases s.len() - i,
    {
        if s[i].file_id == id {
            return i;
        }
        i += 1;
    }
    i
}

impl AppControls {
    /// No transfers.
    pub fn new() -> (res: Self)
        ensures
            res.transfers@ == Seq::<TransferInfo>::empty(),
    {
        AppControls { transfers: Vec::new() }
    }

    /// The controls' invariant: each transfer appears once.
    pub open spec fn wf(&self) -> bool {
        ids_distinct(self.transfers@)
    }

    /// Adds a transfer, or, if one with its id is shown, shows that one afresh
    /// with the new label and phase and its progress at zero.
    pub fn add_transfer(&mut self, info: TransferInfo)
        ensures
            lacks_id(old(self).transfers@, info.file_id) ==> final(self).transfers@ == old(
                self,
            ).transfers@.push(info),
            forall|i: int|
                first_with_id(old(self).transfers@, info.file_id, i) ==> final(self).transfers@
                    == old(self).transfers@.update(i, restarted(info)),
            old(self).wf() ==> final(self).wf(),
    {
        let i = find_transfer(&self.transfers, info.file_id);
        if i < self.transfers.len() {
            let fresh = TransferInfo {
                file_id: info.file_id,
                label: info.label,
                phase: info.phase,
                current: 0,
                total: 0,
            };
            self.transfers.set(i, fresh);
        } else {
            self.transfers.push(info);
        }
    }

    /// Updates the progress and phase of the transfer with this id, if it is shown.
    pub fn update_transfer(&mut self, file_id: i64, current: u64, total: u64, phase: TransferPhase)
        ensures
            lacks_id(old(self).transfers@, file_id) ==> final(self).transfers@ == old(
                self,
            ).transfers@,
            forall|i: int|
                first_with_id(old(self).transfers@, file_id, i) ==> final(self).transfers@ == old(
                    self,
                ).transfers@.update(i, progressed(old(self).transfers@[i], current, total, phase)),
            old(self).wf() ==> final(self).wf(),
    {
        let i = find_transfer(&self.transfers, file_id);
        if i < self.transfers.len() {
            let label = self.transfers[i].label.clone();
            let t = TransferInfo { file_id: self.transfers[i].file_id, label, phase, current, total };
            self.transfers.set(i, t);
        }
    }

    /// Removes every transfer with this id.
    pub fn remove_transfer(&mut self, file_id: i64)
        ensures
            final(self).transfers@ == old(self).transfers@.filter(
                |t: TransferInfo| t.file_id != file_id,
            ),
            old(self).wf() ==> final(self).wf(),
    {
        let mut rest: Vec<TransferInfo> = Vec::new();
        std::mem::swap(&mut rest, &mut self.transfers);
        let ghost all = rest@;
        let ghost keep = |t: TransferInfo| t.file_id != file_id;
        let mut kept: Vec<TransferInfo> = Vec::new();
        let mut i: usize = 0;
        let n = rest.len();
        assert(n == all.len());
        assert(all.subrange(0, all.len() as int) == all);
        proof {
            reveal_with_fuel(Seq::<_>::filter, 1);
            assert(all.take(0).filter(keep) == Seq::<TransferInfo>::empty());
        }
        while rest.len() > 0
            invariant
                i + rest.len() == all.len(),
                all.len() <= usize::MAX,
                keep == (|t: TransferInfo| t.file_id != file_id),
                rest@ == all.subrange(i as int, all.len() as int),
                kept@ == all.take(i as int).filter(keep),
            decreases rest.len(),
        {
            let t = rest.remove(0);
            proof {
                assert(t == all[i as int]);
                assert(keep(t) == (t.file_id != file_id));
                reveal_with_fuel(Seq::<_>::filter, 1);
                assert(all.take(i + 1).drop_last() == all.take(i as int));
                assert(all.take(i + 1).last() == t);
            }
            if t.file_id != file_id {
                kept.push(t);
            }
            i += 1;
        }
        assert(all.take(all.len() as int) == all);
        self.transfers = kept;
        proof {
            let f = all.filter(keep);
            if ids_distinct(all) {
                assert forall|a: int, b: int| 0 <= a < b < f.len() implies f[a].file_id
                    != f[b].file_id by {
                    lemma_filter_keeps_order(all, keep, a, b);
                }
            }
        }
    }
}

/// Two positions of a filtered sequence come from two positions of the
/// unfiltered sequence, in the same order.
proof fn lemma_filter_keeps_order(s: Seq<TransferInfo>, keep: spec_fn(TransferInfo) -> bool, a: int, b: int)
    requires
        0 <= a < b < s.filter(keep).len(),
    ensures
        exists|x: int, y: int|
            0 <= x < y < s.len() && s[x] == s.filter(keep)[a] && s[y] == s.filter(keep)[b],
    decreases s.len(),
{
    reveal_with_fuel(Seq::<_>::filter, 1);
    let f = s.filter(keep);
    let g = s.drop_last().filter(keep);
    s.drop_last().lemma_filter_len(keep);
    if keep(s.last()) && b == f.len() - 1 {
        if a < g.len() {
            assert(exists|x: int| 0 <= x < s.drop_last().len() && s.drop_last()[x] == g[a]) by {
                lemma_filter_member(s.drop_last(), keep, a);
            }
            let x = choose|x: int| 0 <= x < s.drop_last().len() && s.drop_last()[x] == g[a];
            assert(s[x] == f[a]);
            assert(s[s.len() - 1] == f[b]);
        }
    } else {
        lemma_filter_keeps_order(s.drop_last(), keep, a, b);
        let (x, y) = choose|x: int, y: int|
            0 <= x < y < s.drop_last().len() && s.drop_last()[x] == g[a] && s.drop_last()[y] == g[b];
        assert(s[x] == f[a] && s[y] == f[b]);
    }
}

/// Every element of a filtered sequence comes from the unfiltered one.
proof fn lemma_filter_member(s: Seq<TransferInfo>, keep: spec_fn(TransferInfo) -> bool, a: int)
    requires
        0 <= a < s.filter(keep).len(),
    ensures
        exists|x: int| 0 <= x < s.len() && s[x] == s.filter(keep)[a],
    decreases s.len(),
{
    reveal_with_fuel(Seq::<_>::filter, 1);
    let g = s.drop_last().filter(keep);
    s.drop_last().lemma_filter_len(keep);
    if keep(s.last()) && a == g.len() {
        assert(s[s.len() - 1] == s.filter(keep)[a]);
    } else {
        lemma_filter_member(s.drop_last(), keep, a);
        let x = choose|x: int| 0 <= x < s.drop_last().len() && s.drop_last()[x] == g[a];
        assert(s[x] == s.filter(keep)[a]);
    }
}

/// A rectangle in window coordinates.
pub struct Rect {
    pub x: i32,
    pub y: i32,
    pub width: i32,
    pub height: i32,
}

/// Where the transfer list and the log go.
pub struct ResizeLayout {
    pub transfer_list: Rect,
    pub log_edit: Rect,
}

/// Rust's `(u * 40) / 100` on integers, which rounds towards zero.
pub open spec fn forty_percent(u: int) -> int {
    if u >= 0 {
        (u * 40) / 100
    } else {
        -(((-u) * 40) / 100)
    }
}

/// The height left for the two panes below the buttons and above the status bar.
pub open spec fn usable_height(height: int, status_height: int) -> int {
    height - 50 - status_height - 10
}

/// The transfer list's height: 40% of what is usable, at least 80 pixels.
pub open spec fn transfer_height(height: int, status_height: int) -> int {
    let t = forty_percent(usable_height(height, status_height));
    if t > 80 {
        t
    } else {
        80
    }
}

/// The window sizes for which the layout's arithmetic stays within `i32`.
pub open spec fn layout_fits(width: int, height: int, status_height: int) -> bool {
    let u = usable_height(height, status_height);
    let t = transfer_height(height, status_height);
    &&& i32::MIN <= height - 50
    &&& i32::MIN <= height - 50 - status_height <= i32::MAX
    &&& i32::MIN <= u <= i32::MAX
    &&& i32::MIN <= u * 40 <= i32::MAX
    &&& i32::MIN <= u - t - 5 <= i32::MAX
    &&& 50 + t + 5 <= i32::MAX
    &&& i32::MIN <= width - 20
}

/// Lays the transfer list and the log out for a window of this size: below the
/// buttons, the list takes 40% of the height (at least 80 pixels) and the log
/// the rest, 5 pixels apart, both 10 pixels in from the sides.
pub fn resize_layout(width: i32, height: i32, status_height: i32) -> (res: ResizeLayout)
    requires
        layout_fits(width as int, height as int, status_height as int),
    ensures
        res.transfer_list.x == 10,
        res.transfer_list.y == 50,
        res.transfer_list.width == width - 20,
        res.transfer_list.height == transfer_height(height as int, status_height as int),
        res.log_edit.x == 10,
        res.log_edit.y == 50 + transfer_height(height as int, status_height as int) + 5,
        res.log_edit.width == width - 20,
        res.log_edit.height == usable_height(height as int, status_height as int) - transfer_height(
            height as int,
            status_height as int,
        ) - 5,
{
    let usable = height - 50 - status_height - 10;
    let scaled = usable * 40;
    let forty = if scaled >= 0 {
        scaled / 100
    } else {
        let pos = -(scaled as i64);
        -((pos / 100) as i32)
    };
    assert(forty == forty_percent(usable as int)) by {
        if usable < 0 {
            assert((-usable) * 40 == -(usable * 40));
        }
    }
    let transfer_h = if forty > 80 {
        forty
    } else {
        80
    };
    let log_h = usable - transfer_h - 5;
    ResizeLayout {
        transfer_list: Rect { x: 10, y: 50, width: width - 20, height: transfer_h },
        log_edit: Rect { x: 10, y: 50 + transfer_h + 5, width: width - 20, height: log_h },
    }
}

} // verus!

verus! {

/// The text shown beside a transfer's bar: `DL ` or `UL ` and its label.
pub open spec fn caption_spec(phase: TransferPhase, label: Seq<char>) -> Seq<char> {
    match phase {
        TransferPhase::Download => "DL "@ + label,
        TransferPhase::Upload => "UL "@ + label,
    }
}

/// The text shown beside a transfer's progress bar.
pub fn transfer_caption(info: &TransferInfo) -> (res: String)
    ensures
        res@ == caption_spec(info.phase, info.label@),
{
    let mut s = match info.phase {
        TransferPhase::Download => crate::text::owned("DL "),
        TransferPhase::Upload => crate::text::owned("UL "),
    };
    crate::text::push_str(&mut s, info.label.as_str());
    s
}

/// A rectangle by its edges.
pub struct Edges {
    pub left: i32,
    pub top: i32,
    pub right: i32,
    pub bottom: i32,
}

/// Where a transfer's progress bar and caption go within its list item: the
/// bar in the left 60% (inset by 4, 3, 2 and 3 pixels), the caption to its
/// right (inset by 4 pixels).
pub struct ItemLayout {
    pub bar: Edges,
    pub caption: Edges,
}

/// Rust's `(w * 60) / 100` on integers, which rounds towards zero.
pub open spec fn sixty_percent(w: int) -> int {
    if w >= 0 {
        (w * 60) / 100
    } else {
        -(((-w) * 60) / 100)
    }
}

/// The right edge of the bar's part of an item: 60% of the way across.
pub open spec fn bar_split(left: int, right: int) -> int {
    left + sixty_percent(right - left)
}

/// Lays out a list item of a transfer.
pub fn item_layout(item: &Edges) -> (res: ItemLayout)
    requires
        i32::MIN <= item.right - item.left <= i32::MAX,
        i32::MIN <= (item.right - item.left) * 60 <= i32::MAX,
        item.left + 4 <= i32::MAX,
        bar_split(item.left as int, item.right as int) + 4 <= i32::MAX,
        bar_split(item.left as int, item.right as int) - 2 >= i32::MIN,
        item.top + 3 <= i32::MAX,
        item.bottom - 3 >= i32::MIN,
        item.right - 4 >= i32::MIN,
    ensures
        res.bar.left == item.left + 4,
        res.bar.top == item.top + 3,
        res.bar.right == bar_split(item.left as int, item.right as int) - 2,
        res.bar.bottom == item.bottom - 3,
        res.caption.left == bar_split(item.left as int, item.right as int) + 4,
        res.caption.top == item.top,
        res.caption.right == item.right - 4,
        res.caption.bottom == item.bottom,
{
    let w: i32 = item.right - item.left;
    let scaled: i32 = w * 60;
    let sixty: i32 = if scaled >= 0 {
        scaled / 100
    } else {
        let pos = -(scaled as i64);
        -((pos / 100) as i32)
    };
    assert(sixty == sixty_percent(w as int)) by {
        if w < 0 {
            assert((-w) * 60 == -(w * 60));
        }
    }
    let split: i32 = item.left + sixty;
    ItemLayout {
        bar: Edges { left: item.left + 4, top: item.top + 3, right: split - 2, bottom: item.bottom - 3 },
        caption: Edges { left: split + 4, top: item.top, right: item.right - 4, bottom: item.bottom },
    }
}

/// The log keeps at most this many characters before it is trimmed.
pub const LOG_MAX_CHARS: isize = 30000;

/// How many characters are dropped from the start of a log that grew too long.
pub const LOG_TRIM_CHARS: isize = 10000;

/// How many leading characters to drop from a log of `len` characters before
/// appending: 10000 once it holds more than 30000, else none.
pub fn log_trim(len: isize) -> (n: isize)
    ensures
        len > LOG_MAX_CHARS ==> n == LOG_TRIM_CHARS,
        len <= LOG_MAX_CHARS ==> n == 0,
{
    if len > LOG_MAX_CHARS {
        LOG_TRIM_CHARS
    } else {
        0
    }
}

} // verus!
