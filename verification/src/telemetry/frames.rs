use vstd::prelude::*;

use super::model::{
    ActiveAeroMode, DriverStatus, DrsState, Gear, Normalized, PitStatus, RaceFlag, Real,
    ResultStatus, SafetyCarStatus, WeatherCondition,
};

verus! {

/// Whether frame `candidate` is at least as new as frame `current` on the
/// wrapping 32-bit frame counter: equal, or less than half the counter ahead.
pub open spec fn is_at_least_as_new(candidate: u32, current: u32) -> bool {
    candidate == current || (if candidate >= current {
        candidate - current
    } else {
        candidate - current + 0x1_0000_0000int
    }) < 0x8000_0000int
}

/// Whether a value stamped with `frame` may replace a field last written at
/// `recorded`: unframed values and never-written fields always may.
pub open spec fn admits(recorded: Option<u32>, frame: Option<u32>) -> bool {
    match frame {
        None => true,
        Some(candidate) => match recorded {
            None => true,
            Some(current) => is_at_least_as_new(candidate, current),
        },
    }
}

/// Whether `value` is written to the field tracked in `slot`.
pub open spec fn accepts<T>(
    frames: Seq<Option<u32>>,
    slot: int,
    value: Option<T>,
    frame: Option<u32>,
) -> bool {
    value is Some && admits(frames[slot], frame)
}

/// The field after offering `value` to a field holding `current`.
pub open spec fn merged<T>(
    frames: Seq<Option<u32>>,
    slot: int,
    current: Option<T>,
    value: Option<T>,
    frame: Option<u32>,
) -> Option<T> {
    if accepts(frames, slot, value, frame) {
        value
    } else {
        current
    }
}

/// Like [`merged`] for fields that always hold a value.
pub open spec fn merged_value<T>(
    frames: Seq<Option<u32>>,
    slot: int,
    current: T,
    value: Option<T>,
    frame: Option<u32>,
) -> T {
    if accepts(frames, slot, value, frame) {
        value->0
    } else {
        current
    }
}

/// Text field after offering `value` to a field holding `current`: the
/// stored text is kept when the offered one reads the same.
pub open spec fn merged_text(
    frames: Seq<Option<u32>>,
    slot: int,
    current: Option<String>,
    value: Option<String>,
    frame: Option<u32>,
) -> Option<String> {
    if accepts(frames, slot, value, frame) && !same_text(current, value) {
        value
    } else {
        current
    }
}

/// Whether two optional texts are both present and read the same.
pub open spec fn same_text(a: Option<String>, b: Option<String>) -> bool {
    a matches Some(x) && b matches Some(y) && x@ == y@
}

/// Frame bookkeeping after offering values to the slots where `offered` holds:
/// an accepted, framed value records its frame; every other slot is unchanged.
pub open spec fn stamped(
    frames: Seq<Option<u32>>,
    offered: spec_fn(int) -> bool,
    frame: Option<u32>,
) -> Seq<Option<u32>> {
    Seq::new(
        frames.len(),
        |i: int|
            if offered(i) && frame is Some && admits(frames[i], frame) {
                frame
            } else {
                frames[i]
            },
    )
}

/// [`stamped`] restricted to the slots below `k`: the bookkeeping part-way
/// through offering values slot by slot in increasing order.
pub open spec fn stamped_below(
    frames: Seq<Option<u32>>,
    offered: spec_fn(int) -> bool,
    frame: Option<u32>,
    k: int,
) -> Seq<Option<u32>> {
    stamped(frames, |i: int| i < k && offered(i), frame)
}

/// Whether frame `candidate` is at least as new as frame `current` on the
/// wrapping frame counter.
pub fn frame_is_at_least_as_new(candidate: u32, current: u32) -> (b: bool)
    ensures
        b == is_at_least_as_new(candidate, current),
{
    candidate == current || candidate.wrapping_sub(current) < 0x8000_0000u32
}

/// Decides whether a value stamped with `frame` may be written to `slot`,
/// recording the frame when it may.
pub fn should_apply(frames: &mut Vec<Option<u32>>, slot: usize, frame: Option<u32>) -> (b: bool)
    requires
        slot < old(frames).len(),
    ensures
        b == admits(old(frames)@[slot as int], frame),
        final(frames)@ == (if b && frame is Some {
            old(frames)@.update(slot as int, frame)
        } else {
            old(frames)@
        }),
{
    match frame {
        None => true,
        Some(candidate) => {
            match frames[slot] {
                Some(current) => {
                    if !frame_is_at_least_as_new(candidate, current) {
                        return false;
                    }
                },
                None => {},
            }
            frames.set(slot, Some(candidate));
            true
        },
    }
}

/// Values of snapshot fields, whose equality the reducer decides before it
/// writes: a value equal to the stored one is no change.
pub trait FieldValue: Sized {
    /// Whether `self` and `other` are the same value.
    fn same_as(&self, other: &Self) -> (b: bool)
        ensures
            b == (*self == *other),
    ;
}

impl FieldValue for Real {
    fn same_as(&self, other: &Self) -> (b: bool) {
        self.bits == other.bits
    }
}

impl FieldValue for Normalized {
    fn same_as(&self, other: &Self) -> (b: bool) {
        *self == *other
    }
}

impl FieldValue for Gear {
    fn same_as(&self, other: &Self) -> (b: bool) {
        *self == *other
    }
}

impl FieldValue for DrsState {
    fn same_as(&self, other: &Self) -> (b: bool) {
        *self == *other
    }
}

impl FieldValue for WeatherCondition {
    fn same_as(&self, other: &Self) -> (b: bool) {
        *self == *other
    }
}

impl FieldValue for RaceFlag {
    fn same_as(&self, other: &Self) -> (b: bool) {
        *self == *other
    }
}

impl FieldValue for SafetyCarStatus {
    fn same_as(&self, other: &Self) -> (b: bool) {
        *self == *other
    }
}

impl FieldValue for PitStatus {
    fn same_as(&self, other: &Self) -> (b: bool) {
        *self == *other
    }
}

impl FieldValue for DriverStatus {
    fn same_as(&self, other: &Self) -> (b: bool) {
        *self == *other
    }
}

impl FieldValue for ResultStatus {
    fn same_as(&self, other: &Self) -> (b: bool) {
        *self == *other
    }
}

impl FieldValue for ActiveAeroMode {
    fn same_as(&self, other: &Self) -> (b: bool) {
        *self == *other
    }
}

impl FieldValue for bool {
    fn same_as(&self, other: &Self) -> (b: bool) {
        *self == *other
    }
}

impl FieldValue for u8 {
    fn same_as(&self, other: &Self) -> (b: bool) {
        *self == *other
    }
}

impl FieldValue for u16 {
    fn same_as(&self, other: &Self) -> (b: bool) {
        *self == *other
    }
}

impl FieldValue for u32 {
    fn same_as(&self, other: &Self) -> (b: bool) {
        *self == *other
    }
}

impl FieldValue for u64 {
    fn same_as(&self, other: &Self) -> (b: bool) {
        *self == *other
    }
}

impl FieldValue for i32 {
    fn same_as(&self, other: &Self) -> (b: bool) {
        *self == *other
    }
}

/// Offers an optional value to an optional field tracked in `slot`; a value
/// equal to the stored one is recorded but is no change.
pub fn apply_optional<T: FieldValue>(
    frames: &mut Vec<Option<u32>>,
    target: &mut Option<T>,
    value: Option<T>,
    slot: usize,
    frame: Option<u32>,
) -> (changed: bool)
    requires
        slot < old(frames).len(),
    ensures
        *final(target) == merged(old(frames)@, slot as int, *old(target), value, frame),
        changed == (*final(target) != *old(target)),
        final(frames)@ == (if accepts(old(frames)@, slot as int, value, frame) && frame is Some {
            old(frames)@.update(slot as int, frame)
        } else {
            old(frames)@
        }),
{
    match value {
        None => false,
        Some(value) => {
            if !should_apply(frames, slot, frame) {
                return false;
            }
            let differs = match target {
                Some(current) => !current.same_as(&value),
                None => true,
            };
            if differs {
                *target = Some(value);
            }
            differs
        },
    }
}

/// Offers an optional value to a field that always holds a value; a value
/// equal to the stored one is recorded but is no change.
pub fn apply_value<T: FieldValue>(
    frames: &mut Vec<Option<u32>>,
    target: &mut T,
    value: Option<T>,
    slot: usize,
    frame: Option<u32>,
) -> (changed: bool)
    requires
        slot < old(frames).len(),
    ensures
        *final(target) == merged_value(old(frames)@, slot as int, *old(target), value, frame),
        changed == (*final(target) != *old(target)),
        final(frames)@ == (if accepts(old(frames)@, slot as int, value, frame) && frame is Some {
            old(frames)@.update(slot as int, frame)
        } else {
            old(frames)@
        }),
{
    match value {
        None => false,
        Some(value) => {
            if !should_apply(frames, slot, frame) {
                return false;
            }
            let differs = !target.same_as(&value);
            if differs {
                *target = value;
            }
            differs
        },
    }
}

/// Offers an optional text to an optional text field tracked in `slot`; a
/// text that reads the same as the stored one is recorded but is no change.
pub fn apply_text(
    frames: &mut Vec<Option<u32>>,
    target: &mut Option<String>,
    value: Option<String>,
    slot: usize,
    frame: Option<u32>,
) -> (changed: bool)
    requires
        slot < old(frames).len(),
    ensures
        *final(target) == merged_text(old(frames)@, slot as int, *old(target), value, frame),
        changed == (*final(target) != *old(target)),
        final(frames)@ == (if accepts(old(frames)@, slot as int, value, frame) && frame is Some {
            old(frames)@.update(slot as int, frame)
        } else {
            old(frames)@
        }),
{
    let ghost offered = value;
    match value {
        None => false,
        Some(value) => {
            if !should_apply(frames, slot, frame) {
                return false;
            }
            let differs = match target {
                Some(current) => !(*current == value),
                None => true,
            };
            assert(!differs ==> same_text(*old(target), offered));
            if differs {
                *target = Some(value);
            }
            differs
        },
    }
}

/// Offers an optional value to the optional field tracked in `slot`, as one
/// step of offering a whole group of values in increasing slot order.
pub fn offer_optional<T: FieldValue>(
    frames: &mut Vec<Option<u32>>,
    target: &mut Option<T>,
    value: Option<T>,
    slot: usize,
    frame: Option<u32>,
    Ghost(start): Ghost<Seq<Option<u32>>>,
    Ghost(offered): Ghost<spec_fn(int) -> bool>,
) -> (changed: bool)
    requires
        slot < start.len(),
        old(frames)@ == stamped_below(start, offered, frame, slot as int),
        offered(slot as int) == value is Some,
    ensures
        *final(target) == merged(start, slot as int, *old(target), value, frame),
        changed == (*final(target) != *old(target)),
        final(frames)@ == stamped_below(start, offered, frame, slot + 1),
{
    let changed = apply_optional(frames, target, value, slot, frame);
    assert(frames@ =~= stamped_below(start, offered, frame, slot + 1));
    changed
}

/// Like [`offer_optional`] for a field that always holds a value.
pub fn offer_value<T: FieldValue>(
    frames: &mut Vec<Option<u32>>,
    target: &mut T,
    value: Option<T>,
    slot: usize,
    frame: Option<u32>,
    Ghost(start): Ghost<Seq<Option<u32>>>,
    Ghost(offered): Ghost<spec_fn(int) -> bool>,
) -> (changed: bool)
    requires
        slot < start.len(),
        old(frames)@ == stamped_below(start, offered, frame, slot as int),
        offered(slot as int) == value is Some,
    ensures
        *final(target) == merged_value(start, slot as int, *old(target), value, frame),
        changed == (*final(target) != *old(target)),
        final(frames)@ == stamped_below(start, offered, frame, slot + 1),
{
    let changed = apply_value(frames, target, value, slot, frame);
    assert(frames@ =~= stamped_below(start, offered, frame, slot + 1));
    changed
}

/// Like [`offer_optional`] for a text field.
pub fn offer_text(
    frames: &mut Vec<Option<u32>>,
    target: &mut Option<String>,
    value: Option<String>,
    slot: usize,
    frame: Option<u32>,
    Ghost(start): Ghost<Seq<Option<u32>>>,
    Ghost(offered): Ghost<spec_fn(int) -> bool>,
) -> (changed: bool)
    requires
        slot < start.len(),
        old(frames)@ == stamped_below(start, offered, frame, slot as int),
        offered(slot as int) == value is Some,
    ensures
        *final(target) == merged_text(start, slot as int, *old(target), value, frame),
        changed == (*final(target) != *old(target)),
        final(frames)@ == stamped_below(start, offered, frame, slot + 1),
{
    let changed = apply_text(frames, target, value, slot, frame);
    assert(frames@ =~= stamped_below(start, offered, frame, slot + 1));
    changed
}

} // verus!
