//! The monitors of the desktop and which of them the cursor is on.

use vstd::prelude::*;

use crate::geometry::{rect_at, signed, to_signed, to_unsigned, unsigned, Rect};

verus! {

/// A monitor, in virtual screen coordinates.
#[derive(Debug, Clone, Copy, PartialEq, Eq, Structural)]
pub struct OutputInfo {
    /// The number by which the display adapter knows the monitor.
    pub idx: u32,
    pub left: i32,
    pub top: i32,
    pub width: u32,
    pub height: u32,
}

impl OutputInfo {
    /// The far corner of the monitor can be held in an `i32`.
    pub open spec fn wf(self) -> bool {
        &&& i32::MIN <= self.left + to_signed(self.width) <= i32::MAX
        &&& i32::MIN <= self.top + to_signed(self.height) <= i32::MAX
    }

    /// Whether the point (`x`, `y`) is on the monitor.
    pub open spec fn shows(self, x: int, y: int) -> bool {
        &&& self.left <= x < self.left + to_signed(self.width)
        &&& self.top <= y < self.top + to_signed(self.height)
    }

    /// The area of the monitor.
    pub open spec fn area(self) -> Rect {
        rect_at(
            self.left,
            self.top,
            to_signed(self.width) as i32,
            to_signed(self.height) as i32,
        )
    }

    /// Whether the point (`x`, `y`) is on the monitor.
    pub fn contains(&self, x: i32, y: i32) -> (r: bool)
        requires
            self.wf(),
        ensures
            r == self.shows(x as int, y as int),
    {
        x >= self.left && x < self.left + signed(self.width) && y >= self.top && y < self.top
            + signed(self.height)
    }

    /// The area of the monitor.
    pub fn rect(&self) -> (r: Rect)
        requires
            self.wf(),
        ensures
            r == self.area(),
            r.left == self.left,
            r.top == self.top,
            r.width() == to_signed(self.width),
            r.height() == to_signed(self.height),
    {
        Rect {
            left: self.left,
            top: self.top,
            right: self.left + signed(self.width),
            bottom: self.top + signed(self.height),
        }
    }

    /// Whether the far corner of the monitor can be held in an `i32`.
    pub fn is_well_formed(&self) -> (r: bool)
        ensures
            r == self.wf(),
    {
        self.left.checked_add(signed(self.width)).is_some() && self.top.checked_add(
            signed(self.height),
        ).is_some()
    }
}

/// The monitor that is assumed where none can be found.
pub open spec fn assumed_output() -> OutputInfo {
    OutputInfo { idx: 0, left: 0, top: 0, width: 1920, height: 1080 }
}

/// The monitor that is assumed where none can be found.
pub fn fallback_output() -> (r: OutputInfo)
    ensures
        r == assumed_output(),
        r.wf(),
{
    OutputInfo { idx: 0, left: 0, top: 0, width: 1920, height: 1080 }
}

/// What the display adapter says of one of its outputs.
#[derive(Debug, Clone, Copy, PartialEq, Eq, Structural)]
pub struct OutputDesc {
    pub attached: bool,
    pub rect: Rect,
}

/// An output without a description, or one that is not part of the desktop,
/// is no monitor.
pub open spec fn is_active(desc: Option<OutputDesc>) -> bool {
    desc is Some && desc->0.attached
}

/// The monitor behind the output with number `idx`.
pub open spec fn output_of(idx: int, desc: OutputDesc) -> OutputInfo {
    OutputInfo {
        idx: idx as u32,
        left: desc.rect.left,
        top: desc.rect.top,
        width: to_unsigned(desc.rect.width() as i32) as u32,
        height: to_unsigned(desc.rect.height() as i32) as u32,
    }
}

/// The monitors among the outputs of an adapter, in their order.
pub open spec fn active_outputs(descs: Seq<Option<OutputDesc>>) -> Seq<OutputInfo>
    decreases descs.len(),
{
    if descs.len() == 0 {
        seq![]
    } else {
        let rest = active_outputs(descs.drop_last());
        if is_active(descs.last()) {
            rest.push(output_of(descs.len() - 1, descs.last()->0))
        } else {
            rest
        }
    }
}

/// The sides of every monitor can be held in an `i32`.
pub open spec fn all_measurable(descs: Seq<Option<OutputDesc>>) -> bool {
    forall|i: int| 0 <= i < descs.len() && is_active(#[trigger] descs[i]) ==> descs[i]->0.rect.measurable()
}

/// The list of monitors that follows from what was probed: those of the adapter
/// or, where it has none or could not be opened, the assumed one.
pub open spec fn output_list(probed: Option<Seq<Option<OutputDesc>>>) -> Seq<OutputInfo> {
    match probed {
        None => seq![assumed_output()],
        Some(descs) => if active_outputs(descs).len() == 0 {
            seq![assumed_output()]
        } else {
            active_outputs(descs)
        },
    }
}

/// Lists the monitors attached to an adapter, one entry per active output, in
/// the adapter's order. There is always at least one entry: where no monitor can
/// be found, one is assumed.
///
/// `probed` holds a description for each of the adapter's outputs that has
/// one, or nothing where the adapter could not be opened.
pub fn enumerate_outputs(probed: Option<&Vec<Option<OutputDesc>>>) -> (r: Vec<OutputInfo>)
    requires
        probed matches Some(descs) ==> descs@.len() <= u32::MAX && all_measurable(descs@),
    ensures
        r@ == output_list(
            match probed {
                Some(descs) => Some(descs@),
                None => None,
            },
        ),
        forall|i: int| 0 <= i < r@.len() ==> (#[trigger] r@[i]).wf(),
{
    let mut result: Vec<OutputInfo> = Vec::new();
    let descs = match probed {
        Some(descs) => descs,
        None => {
            result.push(fallback_output());
            assert(result@ =~= seq![assumed_output()]);
            return result;
        },
    };
    let mut idx: usize = 0;
    while idx < descs.len()
        invariant
            idx <= descs@.len() <= u32::MAX,
            all_measurable(descs@),
            result@ == active_outputs(descs@.take(idx as int)),
            forall|i: int| 0 <= i < result@.len() ==> (#[trigger] result@[i]).wf(),
        decreases descs@.len() - idx,
    {
        let ghost next = descs@.take(idx + 1);
        assert(next.drop_last() =~= descs@.take(idx as int));
        assert(next.last() == descs@[idx as int]);
        if let Some(desc) = descs[idx] {
            if desc.attached {
                assert(is_active(descs@[idx as int]));
                result.push(
                    OutputInfo {
                        idx: idx as u32,
                        left: desc.rect.left,
                        top: desc.rect.top,
                        width: unsigned(desc.rect.right - desc.rect.left),
                        height: unsigned(desc.rect.bottom - desc.rect.top),
                    },
                );
            }
        }
        idx = idx + 1;
    }
    assert(descs@.take(idx as int) =~= descs@);
    if result.len() == 0 {
        result.push(fallback_output());
        assert(result@ =~= seq![assumed_output()]);
    }
    result
}

/// The position of the first monitor that shows the point (`x`, `y`).
pub open spec fn output_at(outputs: Seq<OutputInfo>, x: int, y: int) -> Option<int>
    decreases outputs.len(),
{
    if outputs.len() == 0 {
        None
    } else {
        match output_at(outputs.drop_last(), x, y) {
            Some(i) => Some(i),
            None => if outputs.last().shows(x, y) {
                Some(outputs.len() - 1)
            } else {
                None
            },
        }
    }
}

/// Finds the first monitor that shows the point (`x`, `y`).
pub fn find_output(outputs: &Vec<OutputInfo>, x: i32, y: i32) -> (r: Option<OutputInfo>)
    requires
        forall|i: int| 0 <= i < outputs@.len() ==> (#[trigger] outputs@[i]).wf(),
    ensures
        r == match output_at(outputs@, x as int, y as int) {
            Some(i) => Some(outputs@[i]),
            None => None,
        },
{
    let mut i: usize = 0;
    while i < outputs.len()
        invariant
            i <= outputs@.len(),
            output_at(outputs@.take(i as int), x as int, y as int) is None,
            forall|j: int| 0 <= j < outputs@.len() ==> (#[trigger] outputs@[j]).wf(),
        decreases outputs@.len() - i,
    {
        let ghost next = outputs@.take(i + 1);
        assert(next.drop_last() =~= outputs@.take(i as int));
        if outputs[i].contains(x, y) {
            proof {
                lemma_output_at_prefix(outputs@, i + 1, x as int, y as int);
            }
            return Some(outputs[i]);
        }
        i = i + 1;
    }
    assert(outputs@.take(i as int) =~= outputs@);
    None
}

/// What is found in a prefix of the list is what is found in the whole list.
proof fn lemma_output_at_prefix(outputs: Seq<OutputInfo>, n: int, x: int, y: int)
    requires
        0 <= n <= outputs.len(),
        output_at(outputs.take(n), x, y) is Some,
    ensures
        output_at(outputs, x, y) == output_at(outputs.take(n), x, y),
    decreases outputs.len(),
{
    if n == outputs.len() {
        assert(outputs.take(n) =~= outputs);
    } else {
        assert(outputs.drop_last().take(n) =~= outputs.take(n));
        lemma_output_at_prefix(outputs.drop_last(), n, x, y);
    }
}

/// The monitor that is found shows the point, no earlier one does, and where
/// none is found none shows it.
pub proof fn law_output_at(outputs: Seq<OutputInfo>, x: int, y: int)
    ensures
        match output_at(outputs, x, y) {
            Some(i) => {
                &&& 0 <= i < outputs.len()
                &&& outputs[i].shows(x, y)
                &&& forall|j: int| 0 <= j < i ==> !(#[trigger] outputs[j]).shows(x, y)
            },
            None => forall|j: int| 0 <= j < outputs.len() ==> !(#[trigger] outputs[j]).shows(x, y),
        },
    decreases outputs.len(),
{
    if outputs.len() > 0 {
        let rest = outputs.drop_last();
        law_output_at(rest, x, y);
        assert forall|j: int| 0 <= j < rest.len() implies #[trigger] outputs[j] == rest[j] by {}
        match output_at(rest, x, y) {
            Some(i) => {
                assert(outputs[i] == rest[i]);
            },
            None => {},
        }
    }
}

/// Every entry of the list stands for an active output of the adapter, under
/// that output's number, and the numbers rise along the list: no monitor is
/// listed twice.
pub proof fn law_entries_are_active(descs: Seq<Option<OutputDesc>>)
    requires
        descs.len() <= u32::MAX,
    ensures
        forall|k: int| 0 <= k < active_outputs(descs).len() ==> {
            let out = #[trigger] active_outputs(descs)[k];
            &&& out.idx < descs.len()
            &&& is_active(descs[out.idx as int])
            &&& out == output_of(out.idx as int, descs[out.idx as int]->0)
        },
        forall|j: int, k: int|
            0 <= j < k < active_outputs(descs).len() ==> (#[trigger] active_outputs(descs)[j]).idx < (
            #[trigger] active_outputs(descs)[k]).idx,
    decreases descs.len(),
{
    if descs.len() > 0 {
        let rest = descs.drop_last();
        law_entries_are_active(rest);
        assert forall|i: int| 0 <= i < rest.len() implies #[trigger] descs[i] == rest[i] by {}
        assert forall|k: int| 0 <= k < active_outputs(descs).len() implies {
            let out = #[trigger] active_outputs(descs)[k];
            &&& out.idx < descs.len()
            &&& is_active(descs[out.idx as int])
            &&& out == output_of(out.idx as int, descs[out.idx as int]->0)
        } by {
            if k < active_outputs(rest).len() {
                let out = active_outputs(rest)[k];
                assert(active_outputs(descs)[k] == out);
                assert(descs[out.idx as int] == rest[out.idx as int]);
            }
        }
        assert forall|j: int, k: int| 0 <= j < k < active_outputs(descs).len() implies (
        #[trigger] active_outputs(descs)[j]).idx < (#[trigger] active_outputs(descs)[k]).idx by {
            assert(active_outputs(descs)[j] == active_outputs(rest)[j]);
            assert(active_outputs(rest)[j].idx < rest.len());
            if k < active_outputs(rest).len() {
                assert(active_outputs(descs)[k] == active_outputs(rest)[k]);
            }
        }
    }
}

/// Every active output of the adapter is in the list.
pub proof fn law_active_outputs_listed(descs: Seq<Option<OutputDesc>>, i: int)
    requires
        0 <= i < descs.len(),
        is_active(descs[i]),
    ensures
        active_outputs(descs).contains(output_of(i, descs[i]->0)),
    decreases descs.len(),
{
    let rest = descs.drop_last();
    let all = active_outputs(descs);
    if i == descs.len() - 1 {
        assert(all[all.len() - 1] == output_of(i, descs[i]->0));
    } else {
        law_active_outputs_listed(rest, i);
        assert(rest[i] == descs[i]);
        let k = choose|k: int|
            0 <= k < active_outputs(rest).len() && active_outputs(rest)[k] == output_of(
                i,
                descs[i]->0,
            );
        assert(all[k] == active_outputs(rest)[k]);
    }
}

/// The area of a listed monitor is the rectangle that the adapter gave for it,
/// also where that rectangle is turned inside out.
pub proof fn law_area_is_desktop_rect(idx: int, desc: OutputDesc)
    requires
        desc.rect.measurable(),
    ensures
        output_of(idx, desc).wf(),
        output_of(idx, desc).area() == desc.rect,
{
}

/// No number is listed twice.
pub open spec fn distinct(outputs: Seq<OutputInfo>) -> bool {
    forall|i: int, j: int|
        0 <= i < j < outputs.len() ==> (#[trigger] outputs[i]).idx != (#[trigger] outputs[j]).idx
}

/// No list of monitors holds a number twice.
pub proof fn law_list_distinct(probed: Option<Seq<Option<OutputDesc>>>)
    requires
        probed matches Some(descs) ==> descs.len() <= u32::MAX,
    ensures
        distinct(output_list(probed)),
{
    if let Some(descs) = probed {
        law_entries_are_active(descs);
    }
}

/// Callers never see an empty list.
pub proof fn law_never_empty(probed: Option<Seq<Option<OutputDesc>>>)
    ensures
        output_list(probed).len() > 0,
{
}

/// A point lies on a monitor where it is at or right of its left side and less
/// than its width away, and likewise from its top.
pub open spec fn lies_on(o: OutputInfo, x: int, y: int) -> bool {
    &&& 0 <= x - o.left < to_signed(o.width)
    &&& 0 <= y - o.top < to_signed(o.height)
}

/// A monitor shows a point exactly where its area covers it, wherever on the
/// virtual screen the monitor is; its area starts at its corner and has its
/// width and height. It is well-formed exactly where the far corner fits into
/// 32 bits with a sign.
pub proof fn law_monitor_shows_its_area(o: OutputInfo, x: int, y: int)
    ensures
        o.shows(x, y) <==> lies_on(o, x, y),
        o.wf() <==> -0x8000_0000 <= o.left + to_signed(o.width) < 0x8000_0000 && -0x8000_0000
            <= o.top + to_signed(o.height) < 0x8000_0000,
        o.wf() ==> {
            let r = o.area();
            &&& o.shows(x, y) <==> r.covers(x, y)
            &&& o.shows(x, y) <==> r.left <= x < r.right && r.top <= y < r.bottom
            &&& r.left == o.left
            &&& r.top == o.top
            &&& r.right - r.left == to_signed(o.width)
            &&& r.bottom - r.top == to_signed(o.height)
        },
{
}

/// A monitor is found for every point that lies on a listed one: the first on
/// which it lies.
pub proof fn law_found_where_it_lies(outputs: Seq<OutputInfo>, x: int, y: int)
    ensures
        match output_at(outputs, x, y) {
            Some(i) => {
                &&& 0 <= i < outputs.len()
                &&& lies_on(outputs[i], x, y)
                &&& forall|j: int| 0 <= j < i ==> !lies_on(#[trigger] outputs[j], x, y)
            },
            None => forall|j: int| 0 <= j < outputs.len() ==> !lies_on(#[trigger] outputs[j], x, y),
        },
{
    law_output_at(outputs, x, y);
}

/// The monitor that is listed for an output has the output's number, its corner
/// and its sides.
pub open spec fn stands_for(o: OutputInfo, i: int, desc: Option<OutputDesc>) -> bool {
    &&& o.idx == i
    &&& desc matches Some(d) && d.attached && {
        &&& o.left == d.rect.left
        &&& o.top == d.rect.top
        &&& to_signed(o.width) == d.rect.right - d.rect.left
        &&& to_signed(o.height) == d.rect.bottom - d.rect.top
    }
}

/// The list holds one entry for each output that is described and attached, with
/// that output's corner and sides, in the order of the outputs, and nothing
/// else.
pub proof fn law_one_entry_per_attached_output(descs: Seq<Option<OutputDesc>>)
    requires
        descs.len() <= u32::MAX,
        forall|i: int|
            0 <= i < descs.len() ==> ((#[trigger] descs[i]) matches Some(d) ==> (d.attached ==> {
                &&& -0x8000_0000 <= d.rect.right - d.rect.left < 0x8000_0000
                &&& -0x8000_0000 <= d.rect.bottom - d.rect.top < 0x8000_0000
            })),
    ensures
        ({
            let list = active_outputs(descs);
            &&& forall|k: int|
                0 <= k < list.len() ==> {
                    let o = #[trigger] list[k];
                    o.idx < descs.len() && stands_for(o, o.idx as int, descs[o.idx as int])
                }
            &&& forall|j: int, k: int|
                0 <= j < k < list.len() ==> (#[trigger] list[j]).idx < (#[trigger] list[k]).idx
            &&& forall|i: int|
                0 <= i < descs.len() && ((#[trigger] descs[i]) matches Some(d) && d.attached)
                    ==> exists|k: int| 0 <= k < list.len() && (#[trigger] list[k]).idx == i
        }),
{
    let list = active_outputs(descs);
    law_entries_are_active(descs);
    assert forall|i: int|
        0 <= i < descs.len() && ((#[trigger] descs[i]) matches Some(d)
            && d.attached) implies exists|k: int|
        0 <= k < list.len() && (#[trigger] list[k]).idx == i by {
        law_active_outputs_listed(descs, i);
        let k = choose|k: int| 0 <= k < list.len() && list[k] == output_of(i, descs[i]->0);
        assert(list[k].idx == i);
    }
}

/// The list is that of the attached outputs; where there are none, or the
/// adapter could not be opened, it holds a monitor of 1920 by 1080 pixels at the
/// origin, under the number 0.
pub proof fn law_list_or_assumed(probed: Option<Seq<Option<OutputDesc>>>)
    ensures
        ({
            let list = output_list(probed);
            match probed {
                Some(descs) => active_outputs(descs).len() > 0 ==> list == active_outputs(descs),
                None => true,
            }
        }),
        (probed matches Some(descs) ==> active_outputs(descs).len() == 0) ==> {
            let list = output_list(probed);
            &&& list.len() == 1
            &&& list[0].idx == 0 && list[0].left == 0 && list[0].top == 0
            &&& list[0].width == 1920 && list[0].height == 1080
        },
{
}

/// The sides of the outputs count only where they are described and attached.
pub proof fn law_measurable_outputs(descs: Seq<Option<OutputDesc>>)
    ensures
        all_measurable(descs) <==> forall|i: int|
            0 <= i < descs.len() ==> ((#[trigger] descs[i]) matches Some(d) ==> (d.attached ==> {
                &&& -0x8000_0000 <= d.rect.right - d.rect.left < 0x8000_0000
                &&& -0x8000_0000 <= d.rect.bottom - d.rect.top < 0x8000_0000
            })),
{
    assert forall|i: int| 0 <= i < descs.len() implies (is_active(#[trigger] descs[i]) <==> (descs[i]
        matches Some(d) && d.attached)) by {}
}

} // verus!
