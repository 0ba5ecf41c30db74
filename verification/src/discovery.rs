//! Finding the emulated devices in the device tree: the bus node among the
//! present devices, its children one sibling after the other, and what the
//! instance id of each child says.
//!
//! The walk asks for one thing at a time and is told the answer; it never
//! touches the device tree itself.

use crate::identity::{classify, device_id, device_kind, parse_device_id};
use crate::status::VHidError;
use crate::text::{
    before_first, chars_of, contains, decode_utf16_lossy, index_of_first, length_trimmed,
    occurs, texts, to_uppercase, trim_end, uppercase, utf16_lossy,
};
use crate::types::{DeviceIds, DeviceType};
use vstd::prelude::*;
use vstd::string::StrSliceExecFns;

verus! {

/// The 16-bit code units that a buffer of bytes holds, each low byte first;
/// a single byte left at the end is not one.
pub open spec fn wide_units(bytes: Seq<u8>) -> Seq<u16> {
    Seq::new(bytes.len() / 2, |i: int| (bytes[2 * i] + 256 * bytes[2 * i + 1]) as u16)
}

/// The hardware id that a property buffer holds: its code units as text,
/// without the zero characters at the end.
pub open spec fn hardware_id(property: Seq<u8>) -> Seq<char> {
    trim_end(utf16_lossy(wide_units(property)), '\0')
}

/// The instance id that an id buffer holds: its code units as text, up to
/// the first zero character.
pub open spec fn instance_id(buffer: Seq<u16>) -> Seq<char> {
    before_first(utf16_lossy(buffer), '\0')
}

/// Whether a hardware id is that of the node looked for: it holds the target,
/// whatever the case of the letters of either.
pub open spec fn names_target(hardware_id: Seq<char>, target: Seq<char>) -> bool {
    occurs(uppercase(target), uppercase(hardware_id))
}

/// What the instance id of a child says: which emulated device it is and its
/// number. An empty id, one of another device, and one whose end is no number
/// say nothing.
pub open spec fn classified(instance_id: Seq<char>) -> Option<(DeviceType, u32)> {
    if instance_id.len() == 0 {
        None
    } else {
        match (device_kind(instance_id), device_id(instance_id)) {
            (Some(kind), Some(id)) => Some((kind, id)),
            _ => None,
        }
    }
}

/// The ids known after a child was looked at.
pub open spec fn noted(found: DeviceIds, hit: Option<(DeviceType, u32)>) -> DeviceIds {
    match hit {
        Some((DeviceType::Keyboard, id)) => DeviceIds { keyboard_id: Some(id), ..found },
        Some((DeviceType::Mouse, id)) => DeviceIds { mouse_id: Some(id), ..found },
        None => found,
    }
}

/// The ids that the children with these instance ids give, looked at in order.
pub open spec fn ids_of(instance_ids: Seq<Seq<char>>) -> DeviceIds
    decreases instance_ids.len(),
{
    if instance_ids.len() == 0 {
        DeviceIds { keyboard_id: None, mouse_id: None }
    } else {
        noted(ids_of(instance_ids.drop_last()), classified(instance_ids.last()))
    }
}

/// Children of which none is an emulated device give no ids.
pub proof fn lemma_no_matching_children(instance_ids: Seq<Seq<char>>)
    requires
        forall|i: int| 0 <= i < instance_ids.len() ==> classified(#[trigger] instance_ids[i]) is None,
    ensures
        ids_of(instance_ids).spec_is_empty(),
    decreases instance_ids.len(),
{
    if instance_ids.len() > 0 {
        let rest = instance_ids.drop_last();
        assert forall|i: int| 0 <= i < rest.len() implies classified(#[trigger] rest[i]) is None by {
            assert(rest[i] == instance_ids[i]);
        }
        lemma_no_matching_children(rest);
    }
}

/// The code units that a buffer of bytes holds.
pub fn wide_units_of(bytes: &[u8]) -> (r: Vec<u16>)
    ensures
        r@ == wide_units(bytes@),
{
    let n: usize = bytes.len() / 2;
    let mut out: Vec<u16> = Vec::new();
    let mut i: usize = 0;
    while i < n
        invariant
            n == bytes.len() / 2,
            i <= n,
            out@ == wide_units(bytes@).subrange(0, i as int),
        decreases n - i,
    {
        let low: u16 = bytes[2 * i] as u16;
        let high: u16 = bytes[2 * i + 1] as u16;
        out.push(low + 256 * high);
        assert(out@ =~= wide_units(bytes@).subrange(0, i + 1));
        i += 1;
    }
    assert(out@ =~= wide_units(bytes@));
    out
}

/// The text `decoded` without the zero characters at its end.
pub fn without_trailing_zeros(decoded: &str) -> (r: String)
    ensures
        r@ == trim_end(decoded@, '\0'),
{
    let chars = chars_of(decoded);
    let n: usize = length_trimmed(chars.as_slice(), '\0');
    decoded.substring_char(0, n).to_owned()
}

/// The text `decoded` up to its first zero character.
pub fn up_to_first_zero(decoded: &str) -> (r: String)
    ensures
        r@ == before_first(decoded@, '\0'),
{
    let chars = chars_of(decoded);
    let n: usize = index_of_first(chars.as_slice(), '\0');
    decoded.substring_char(0, n).to_owned()
}

/// The hardware id that a property buffer holds.
pub fn hardware_id_of(property: &[u8]) -> (r: String)
    ensures
        r@ == hardware_id(property@),
{
    let units = wide_units_of(property);
    let decoded = decode_utf16_lossy(units.as_slice());
    without_trailing_zeros(decoded.as_str())
}

/// The instance id that an id buffer holds.
pub fn instance_id_of(buffer: &[u16]) -> (r: String)
    ensures
        r@ == instance_id(buffer@),
{
    let decoded = decode_utf16_lossy(buffer);
    up_to_first_zero(decoded.as_str())
}

/// Whether a hardware id is that of the node looked for.
pub fn is_target(hardware_id: &str, target: &str) -> (r: bool)
    ensures
        r == names_target(hardware_id@, target@),
{
    let upper_id = to_uppercase(hardware_id);
    let upper_target = to_uppercase(target);
    let hay = chars_of(upper_id.as_str());
    let needle = chars_of(upper_target.as_str());
    contains(hay.as_slice(), needle.as_slice())
}

/// What the instance id of a child says.
pub fn classify_instance_id(instance_id: &str) -> (r: Option<(DeviceType, u32)>)
    ensures
        r == classified(instance_id@),
{
    if instance_id.unicode_len() == 0 {
        return None;
    }
    match (classify(instance_id), parse_device_id(instance_id)) {
        (Some(kind), Some(id)) => Some((kind, id)),
        _ => None,
    }
}

/// The ids known after a child was looked at.
pub fn note(found: DeviceIds, hit: Option<(DeviceType, u32)>) -> (r: DeviceIds)
    ensures
        r == noted(found, hit),
{
    match hit {
        Some((DeviceType::Keyboard, id)) => DeviceIds {
            keyboard_id: Some(id),
            mouse_id: found.mouse_id,
        },
        Some((DeviceType::Mouse, id)) => DeviceIds {
            keyboard_id: found.keyboard_id,
            mouse_id: Some(id),
        },
        None => found,
    }
}

/// The ids that the children with these instance ids give, looked at in
/// order: of several keyboards, or mice, the last one counts.
pub fn collect_ids(instance_ids: &Vec<String>) -> (r: DeviceIds)
    ensures
        r == ids_of(texts(instance_ids@)),
{
    let n: usize = instance_ids.len();
    let mut found = DeviceIds::new();
    let mut i: usize = 0;
    while i < n
        invariant
            n == instance_ids.len(),
            i <= n,
            found == ids_of(texts(instance_ids@).subrange(0, i as int)),
        decreases n - i,
    {
        proof {
            let all = texts(instance_ids@);
            assert(all.subrange(0, i + 1).drop_last() =~= all.subrange(0, i as int));
            assert(all.subrange(0, i + 1).last() == instance_ids@[i as int]@);
        }
        let hit = classify_instance_id(instance_ids[i].as_str());
        found = note(found, hit);
        i += 1;
    }
    assert(texts(instance_ids@).subrange(0, n as int) =~= texts(instance_ids@));
    found
}

/// What the walk asks of the operating system next.
#[derive(Debug, PartialEq, Eq)]
pub enum WalkAction {
    /// Obtain the set of present devices.
    OpenSnapshot,
    /// Read the device at this index of the set: its node and its
    /// hardware-id property.
    ReadDevice(u32),
    /// Release the set of present devices.
    CloseSnapshot,
    /// Retrieve the first child of this node.
    FirstChild(u32),
    /// Retrieve the next sibling of this node.
    NextSibling(u32),
    /// Read the instance id of this node.
    ReadInstanceId(u32),
    /// Nothing: the walk is over, with the ids found or the error.
    Finished(Result<DeviceIds, VHidError>),
}

/// Where the walk stands: what it has asked for and not been told yet.
#[derive(Debug, Clone, Copy, PartialEq, Eq, Structural)]
pub enum WalkPhase {
    /// Nothing was asked for yet.
    Idle,
    /// The set of present devices was asked for.
    Opening,
    /// The device at this index of the set was asked for.
    Scanning(u32),
    /// The release of the set was asked for; the bus node, if one was found.
    Closing(Option<u32>),
    /// The first child of the bus node was asked for.
    Children(u32),
    /// The next sibling of this child was asked for.
    Siblings(u32),
    /// The instance id of the child at this position was asked for.
    Reading(usize),
    /// The walk is over.
    Done,
}

/// The walk in terms of plain values.
pub struct Walk {
    pub phase: WalkPhase,
    pub target: Seq<char>,
    pub bus: Option<u32>,
    pub children: Seq<u32>,
    pub found: DeviceIds,
}

/// A walk through the device tree that looks for the emulated devices
/// below the node whose hardware id holds `target`.
#[derive(Debug, PartialEq, Eq)]
pub struct DeviceDiscovery {
    /// What was asked for last.
    pub phase: WalkPhase,
    /// The hardware id looked for.
    pub target: String,
    /// The bus node, once the scan has found it.
    pub bus: Option<u32>,
    /// The children of the bus node met so far, in the order of the tree.
    pub children: Vec<u32>,
    /// The ids found so far.
    pub found: DeviceIds,
}

impl View for DeviceDiscovery {
    type V = Walk;

    open spec fn view(&self) -> Walk {
        Walk {
            phase: self.phase,
            target: self.target@,
            bus: self.bus,
            children: self.children@,
            found: self.found,
        }
    }
}

/// The answer to a question that was not asked: the walk stays as it is.
pub open spec fn turned_down(w: Walk) -> (Walk, WalkAction) {
    (w, WalkAction::Finished(Err(VHidError::InvalidParameter)))
}

/// The end of the walk with this result.
pub open spec fn finished(w: Walk, result: Result<DeviceIds, VHidError>) -> (Walk, WalkAction) {
    (Walk { phase: WalkPhase::Done, ..w }, WalkAction::Finished(result))
}

/// The start of a walk: from rest, or after an earlier walk, the set of
/// present devices is asked for, with no bus node known, no child met and
/// no id found.
pub open spec fn after_start(w: Walk) -> (Walk, WalkAction) {
    match w.phase {
        WalkPhase::Idle | WalkPhase::Done => (
            Walk {
                phase: WalkPhase::Opening,
                bus: None,
                children: Seq::empty(),
                found: DeviceIds { keyboard_id: None, mouse_id: None },
                ..w
            },
            WalkAction::OpenSnapshot,
        ),
        _ => turned_down(w),
    }
}

/// After the set of present devices was asked for: without it the walk
/// fails, with it the first device is read.
pub open spec fn after_snapshot_opened(w: Walk, opened: bool) -> (Walk, WalkAction) {
    match w.phase {
        WalkPhase::Opening => if opened {
            (Walk { phase: WalkPhase::Scanning(0), ..w }, WalkAction::ReadDevice(0))
        } else {
            finished(w, Err(VHidError::EnumerationFailed))
        },
        _ => turned_down(w),
    }
}

/// After a device of the set was read: the first whose hardware id names the
/// target is the bus node and ends the scan; after any other the next device
/// is read, as long as there is an index for it.
pub open spec fn after_device(w: Walk, devinst: u32, is_bus: bool) -> (Walk, WalkAction) {
    match w.phase {
        WalkPhase::Scanning(index) => if is_bus {
            (
                Walk { phase: WalkPhase::Closing(Some(devinst)), bus: Some(devinst), ..w },
                WalkAction::CloseSnapshot,
            )
        } else if index < u32::MAX {
            (
                Walk { phase: WalkPhase::Scanning((index + 1) as u32), ..w },
                WalkAction::ReadDevice((index + 1) as u32),
            )
        } else {
            (Walk { phase: WalkPhase::Closing(None), ..w }, WalkAction::CloseSnapshot)
        },
        _ => turned_down(w),
    }
}

/// After the set had no device at the index asked for: the scan ends without
/// a bus node.
pub open spec fn after_last_device(w: Walk) -> (Walk, WalkAction) {
    match w.phase {
        WalkPhase::Scanning(_) => (
            Walk { phase: WalkPhase::Closing(None), ..w },
            WalkAction::CloseSnapshot,
        ),
        _ => turned_down(w),
    }
}

/// After the release of the set was asked for: a failed release fails the
/// walk; without a bus node the walk ends with no ids; else the first child
/// of the bus node is asked for.
pub open spec fn after_snapshot_closed(w: Walk, closed: bool) -> (Walk, WalkAction) {
    match w.phase {
        WalkPhase::Closing(bus) => if !closed {
            finished(w, Err(VHidError::EnumerationFailed))
        } else {
            match bus {
                Some(node) => (
                    Walk { phase: WalkPhase::Children(node), ..w },
                    WalkAction::FirstChild(node),
                ),
                None => finished(w, Ok(DeviceIds { keyboard_id: None, mouse_id: None })),
            }
        },
        _ => turned_down(w),
    }
}

/// After a child was asked for. Without a first child the walk ends with no
/// ids. Each child met joins the others at the end and its next sibling is
/// asked for; when there is none, the instance id of the first child is.
pub open spec fn after_child(w: Walk, node: Option<u32>) -> (Walk, WalkAction) {
    match w.phase {
        WalkPhase::Children(_) => match node {
            Some(child) => (
                Walk { phase: WalkPhase::Siblings(child), children: seq![child], ..w },
                WalkAction::NextSibling(child),
            ),
            None => finished(w, Ok(DeviceIds { keyboard_id: None, mouse_id: None })),
        },
        WalkPhase::Siblings(_) => match node {
            Some(child) => (
                Walk { phase: WalkPhase::Siblings(child), children: w.children.push(child), ..w },
                WalkAction::NextSibling(child),
            ),
            None => if w.children.len() > 0 {
                (Walk { phase: WalkPhase::Reading(0), ..w }, WalkAction::ReadInstanceId(w.children[0]))
            } else {
                finished(w, Ok(w.found))
            },
        },
        _ => turned_down(w),
    }
}

/// After the instance id of a child was asked for and `hit` is what it
/// says: the ids are brought up to date, and the next child's instance id is
/// asked for; after the last child the walk ends with the ids found.
pub open spec fn after_instance_id(w: Walk, hit: Option<(DeviceType, u32)>) -> (Walk, WalkAction) {
    match w.phase {
        WalkPhase::Reading(cursor) => {
            let found = noted(w.found, hit);
            if cursor + 1 < w.children.len() {
                (
                    Walk { phase: WalkPhase::Reading((cursor + 1) as usize), found, ..w },
                    WalkAction::ReadInstanceId(w.children[cursor + 1]),
                )
            } else {
                finished(Walk { found, ..w }, Ok(found))
            }
        },
        _ => turned_down(w),
    }
}

impl DeviceDiscovery {
    /// A walk at rest that will look for the node whose hardware id holds
    /// `target`.
    pub fn new(target: &str) -> (r: Self)
        ensures
            r@ == (Walk {
                phase: WalkPhase::Idle,
                target: target@,
                bus: None,
                children: Seq::empty(),
                found: DeviceIds { keyboard_id: None, mouse_id: None },
            }),
    {
        DeviceDiscovery {
            phase: WalkPhase::Idle,
            target: target.to_owned(),
            bus: None,
            children: Vec::new(),
            found: DeviceIds::new(),
        }
    }

    /// Why a finished walk came back without ids, where the reason is that
    /// the bus node is absent. This is no failure of the walk: the driver may
    /// just not be installed yet.
    pub open spec fn spec_missing(&self) -> Option<VHidError> {
        if self.phase == WalkPhase::Done && self.bus is None {
            Some(VHidError::DeviceNotFound)
        } else {
            None
        }
    }

    /// Why a finished walk came back without ids, where the reason is that
    /// the bus node is absent.
    #[verifier::when_used_as_spec(spec_missing)]
    pub fn missing(&self) -> (r: Option<VHidError>)
        ensures
            r == self.spec_missing(),
    {
        match (self.phase, self.bus) {
            (WalkPhase::Done, None) => Some(VHidError::DeviceNotFound),
            _ => None,
        }
    }

    /// Starts the walk and says what to ask for first.
    pub fn discover_devices(&mut self) -> (r: WalkAction)
        ensures
            (final(self)@, r) == after_start(old(self)@),
    {
        match self.phase {
            WalkPhase::Idle | WalkPhase::Done => {
                self.phase = WalkPhase::Opening;
                self.bus = None;
                self.children = Vec::new();
                self.found = DeviceIds::new();
                WalkAction::OpenSnapshot
            },
            _ => WalkAction::Finished(Err(VHidError::InvalidParameter)),
        }
    }

    /// Takes the answer to `OpenSnapshot`: whether the set of present
    /// devices could be obtained.
    pub fn snapshot_opened(&mut self, opened: bool) -> (r: WalkAction)
        ensures
            (final(self)@, r) == after_snapshot_opened(old(self)@, opened),
    {
        match self.phase {
            WalkPhase::Opening => {
                if opened {
                    self.phase = WalkPhase::Scanning(0);
                    WalkAction::ReadDevice(0)
                } else {
                    self.phase = WalkPhase::Done;
                    WalkAction::Finished(Err(VHidError::EnumerationFailed))
                }
            },
            _ => WalkAction::Finished(Err(VHidError::InvalidParameter)),
        }
    }

    /// Takes the answer to `ReadDevice`, given whether the device is the
    /// bus node.
    pub fn device_judged(&mut self, devinst: u32, is_bus: bool) -> (r: WalkAction)
        ensures
            (final(self)@, r) == after_device(old(self)@, devinst, is_bus),
    {
        match self.phase {
            WalkPhase::Scanning(index) => {
                if is_bus {
                    self.phase = WalkPhase::Closing(Some(devinst));
                    self.bus = Some(devinst);
                    WalkAction::CloseSnapshot
                } else if index < u32::MAX {
                    self.phase = WalkPhase::Scanning(index + 1);
                    WalkAction::ReadDevice(index + 1)
                } else {
                    self.phase = WalkPhase::Closing(None);
                    WalkAction::CloseSnapshot
                }
            },
            _ => WalkAction::Finished(Err(VHidError::InvalidParameter)),
        }
    }

    /// Takes the answer to `ReadDevice`: the node of the device and its
    /// hardware-id property as the operating system gave it, `None` where
    /// the property could not be read. A device without a readable property
    /// is not the bus node.
    pub fn device(&mut self, devinst: u32, property: Option<&[u8]>) -> (r: WalkAction)
        ensures
            (final(self)@, r) == after_device(
                old(self)@,
                devinst,
                match property {
                    Some(bytes) => names_target(hardware_id(bytes@), old(self)@.target),
                    None => false,
                },
            ),
    {
        let is_bus: bool = match property {
            Some(bytes) => {
                let id = hardware_id_of(bytes);
                is_target(id.as_str(), self.target.as_str())
            },
            None => false,
        };
        self.device_judged(devinst, is_bus)
    }

    /// Takes the other answer to `ReadDevice`: the set has no device at
    /// that index.
    pub fn no_more_devices(&mut self) -> (r: WalkAction)
        ensures
            (final(self)@, r) == after_last_device(old(self)@),
    {
        match self.phase {
            WalkPhase::Scanning(_) => {
                self.phase = WalkPhase::Closing(None);
                WalkAction::CloseSnapshot
            },
            _ => WalkAction::Finished(Err(VHidError::InvalidParameter)),
        }
    }

    /// Takes the answer to `CloseSnapshot`: whether the set was released.
    pub fn snapshot_closed(&mut self, closed: bool) -> (r: WalkAction)
        ensures
            (final(self)@, r) == after_snapshot_closed(old(self)@, closed),
    {
        match self.phase {
            WalkPhase::Closing(bus) => {
                if !closed {
                    self.phase = WalkPhase::Done;
                    WalkAction::Finished(Err(VHidError::EnumerationFailed))
                } else {
                    match bus {
                        Some(node) => {
                            self.phase = WalkPhase::Children(node);
                            WalkAction::FirstChild(node)
                        },
                        None => {
                            self.phase = WalkPhase::Done;
                            WalkAction::Finished(Ok(DeviceIds::new()))
                        },
                    }
                }
            },
            _ => WalkAction::Finished(Err(VHidError::InvalidParameter)),
        }
    }

    /// Takes the answer to `FirstChild` or `NextSibling`: the node, or
    /// `None` where there is none.
    pub fn child(&mut self, node: Option<u32>) -> (r: WalkAction)
        ensures
            (final(self)@, r) == after_child(old(self)@, node),
    {
        match self.phase {
            WalkPhase::Children(_) => match node {
                Some(child) => {
                    self.phase = WalkPhase::Siblings(child);
                    let mut children: Vec<u32> = Vec::new();
                    children.push(child);
                    self.children = children;
                    assert(self.children@ =~= seq![child]);
                    WalkAction::NextSibling(child)
                },
                None => {
                    self.phase = WalkPhase::Done;
                    WalkAction::Finished(Ok(DeviceIds::new()))
                },
            },
            WalkPhase::Siblings(_) => match node {
                Some(child) => {
                    self.phase = WalkPhase::Siblings(child);
                    self.children.push(child);
                    WalkAction::NextSibling(child)
                },
                None => {
                    if self.children.len() > 0 {
                        self.phase = WalkPhase::Reading(0);
                        WalkAction::ReadInstanceId(self.children[0])
                    } else {
                        self.phase = WalkPhase::Done;
                        WalkAction::Finished(Ok(self.found))
                    }
                },
            },
            _ => WalkAction::Finished(Err(VHidError::InvalidParameter)),
        }
    }

    /// Takes the answer to `ReadInstanceId`, given what the instance id says.
    pub fn child_classified(&mut self, hit: Option<(DeviceType, u32)>) -> (r: WalkAction)
        ensures
            (final(self)@, r) == after_instance_id(old(self)@, hit),
    {
        match self.phase {
            WalkPhase::Reading(cursor) => {
                self.found = note(self.found, hit);
                let n: usize = self.children.len();
                if n > 0 && cursor < n - 1 {
                    self.phase = WalkPhase::Reading(cursor + 1);
                    WalkAction::ReadInstanceId(self.children[cursor + 1])
                } else {
                    self.phase = WalkPhase::Done;
                    WalkAction::Finished(Ok(self.found))
                }
            },
            _ => WalkAction::Finished(Err(VHidError::InvalidParameter)),
        }
    }

    /// Takes the answer to `ReadInstanceId`: the id buffer as the operating
    /// system filled it, or `None` where the id could not be read. A child
    /// whose id is unreadable or empty is passed over.
    pub fn instance_id(&mut self, buffer: Option<&[u16]>) -> (r: WalkAction)
        ensures
            (final(self)@, r) == after_instance_id(
                old(self)@,
                match buffer {
                    Some(units) => classified(instance_id(units@)),
                    None => None,
                },
            ),
    {
        let hit: Option<(DeviceType, u32)> = match buffer {
            Some(units) => {
                let id = instance_id_of(units);
                classify_instance_id(id.as_str())
            },
            None => None,
        };
        self.child_classified(hit)
    }
}

/// The ids known after what each of several children says was noted in order.
pub open spec fn noted_all(found: DeviceIds, hits: Seq<Option<(DeviceType, u32)>>) -> DeviceIds
    decreases hits.len(),
{
    if hits.len() == 0 {
        found
    } else {
        noted(noted_all(found, hits.drop_last()), hits.last())
    }
}

/// The walk after it was told, one after the other, what the instance ids of
/// several children say.
pub open spec fn after_hits(w: Walk, hits: Seq<Option<(DeviceType, u32)>>) -> Walk
    decreases hits.len(),
{
    if hits.len() == 0 {
        w
    } else {
        after_instance_id(after_hits(w, hits.drop_last()), hits.last()).0
    }
}

/// While children are left, the walk reads them in the order of the tree and
/// notes what each says.
pub proof fn lemma_walk_reads_in_order(w: Walk, hits: Seq<Option<(DeviceType, u32)>>)
    requires
        w.phase == WalkPhase::Reading(0),
        hits.len() < w.children.len() <= usize::MAX,
    ensures
        after_hits(w, hits) == (Walk {
            phase: WalkPhase::Reading(hits.len() as usize),
            found: noted_all(w.found, hits),
            ..w
        }),
    decreases hits.len(),
{
    if hits.len() > 0 {
        lemma_walk_reads_in_order(w, hits.drop_last());
    }
}

/// The walk reads every child once and ends, without error, with what all
/// of them say.
pub proof fn lemma_walk_reads_every_child(w: Walk, hits: Seq<Option<(DeviceType, u32)>>)
    requires
        w.phase == WalkPhase::Reading(0),
        0 < hits.len() == w.children.len() <= usize::MAX,
    ensures
        after_instance_id(after_hits(w, hits.drop_last()), hits.last()) == finished(
            Walk { found: noted_all(w.found, hits), ..w },
            Ok(noted_all(w.found, hits)),
        ),
{
    lemma_walk_reads_in_order(w, hits.drop_last());
}

/// Children that say nothing leave the ids as they were.
pub proof fn lemma_noted_nothing(found: DeviceIds, hits: Seq<Option<(DeviceType, u32)>>)
    requires
        forall|i: int| 0 <= i < hits.len() ==> hits[i] is None,
    ensures
        noted_all(found, hits) == found,
    decreases hits.len(),
{
    if hits.len() > 0 {
        lemma_noted_nothing(found, hits.drop_last());
    }
}

/// A walk that meets children of which none is an emulated device ends
/// without error and with no ids.
pub proof fn lemma_walk_without_match(w: Walk, hits: Seq<Option<(DeviceType, u32)>>)
    requires
        w.phase == WalkPhase::Reading(0),
        w.found.spec_is_empty(),
        0 < hits.len() == w.children.len() <= usize::MAX,
        forall|i: int| 0 <= i < hits.len() ==> hits[i] is None,
    ensures
        after_instance_id(after_hits(w, hits.drop_last()), hits.last()).1 == WalkAction::Finished(
            Ok(DeviceIds { keyboard_id: None, mouse_id: None }),
        ),
{
    lemma_walk_reads_every_child(w, hits);
    lemma_noted_nothing(w.found, hits);
}

/// What the walk notes of children is what their instance ids give.
pub proof fn lemma_noted_all_is_ids_of(instance_ids: Seq<Seq<char>>)
    ensures
        noted_all(
            DeviceIds { keyboard_id: None, mouse_id: None },
            Seq::new(instance_ids.len(), |i: int| classified(instance_ids[i])),
        ) == ids_of(instance_ids),
    decreases instance_ids.len(),
{
    let hits = Seq::new(instance_ids.len(), |i: int| classified(instance_ids[i]));
    if instance_ids.len() > 0 {
        let rest = instance_ids.drop_last();
        lemma_noted_all_is_ids_of(rest);
        assert(hits.drop_last() =~= Seq::new(rest.len(), |i: int| classified(rest[i])));
    }
}

/// The bus node among the present devices, each given by its node and by
/// whether its hardware id names the target: the first that does.
pub open spec fn first_bus(devices: Seq<(u32, bool)>) -> Option<u32>
    decreases devices.len(),
{
    if devices.len() == 0 {
        None
    } else if devices[0].1 {
        Some(devices[0].0)
    } else {
        first_bus(devices.drop_first())
    }
}

/// The walk after it was told the present devices from position `from` on,
/// one after the other up to the bus node or the end of the set, and what it
/// asks for then.
pub open spec fn after_scan(w: Walk, devices: Seq<(u32, bool)>, from: int) -> (Walk, WalkAction)
    decreases devices.len() - from,
{
    if from < 0 || from >= devices.len() {
        after_last_device(w)
    } else {
        let step = after_device(w, devices[from].0, devices[from].1);
        if devices[from].1 {
            step
        } else {
            after_scan(step.0, devices, from + 1)
        }
    }
}

/// The walk after it was told the children of the bus node, one sibling
/// after the other.
pub open spec fn after_children(w: Walk, children: Seq<u32>) -> Walk
    decreases children.len(),
{
    if children.len() == 0 {
        w
    } else {
        after_child(after_children(w, children.drop_last()), Some(children.last())).0
    }
}

/// The scan stops at the first device whose hardware id names the target, or
/// at the end of the set, and asks for the release of the set.
pub proof fn lemma_scan_finds_first_bus(w: Walk, devices: Seq<(u32, bool)>, from: int)
    requires
        0 <= from <= devices.len() <= u32::MAX,
        w.phase == WalkPhase::Scanning(from as u32),
        w.bus is None,
    ensures
        after_scan(w, devices, from) == (
            Walk {
                phase: WalkPhase::Closing(first_bus(devices.subrange(from, devices.len() as int))),
                bus: first_bus(devices.subrange(from, devices.len() as int)),
                ..w
            },
            WalkAction::CloseSnapshot,
        ),
    decreases devices.len() - from,
{
    let rest = devices.subrange(from, devices.len() as int);
    if from < devices.len() {
        assert(rest[0] == devices[from]);
        assert(rest.drop_first() =~= devices.subrange(from + 1, devices.len() as int));
        if !devices[from].1 {
            lemma_scan_finds_first_bus(after_device(w, devices[from].0, false).0, devices, from + 1);
        }
    }
}

/// The children are met in the order in which the tree gives them.
pub proof fn lemma_children_in_order(w: Walk, children: Seq<u32>)
    requires
        w.phase is Children,
        children.len() > 0,
    ensures
        after_children(w, children) == (Walk {
            phase: WalkPhase::Siblings(children.last()),
            children: children,
            ..w
        }),
    decreases children.len(),
{
    let before = children.drop_last();
    let earlier = after_children(w, before);
    assert(after_children(w, children) == after_child(earlier, Some(children.last())).0);
    if before.len() > 0 {
        lemma_children_in_order(w, before);
        assert(before.push(children.last()) =~= children);
    } else {
        assert(earlier == w);
        assert(seq![children.last()] =~= children);
    }
}

/// A whole walk. Told the present devices, the children of the bus node and
/// what the instance id of each child says, the walk ends without error: with
/// no ids where no device is the bus node or the bus node has no child, else
/// with what the children say, noted in the order of the tree.
pub proof fn lemma_walk_finds_what_is_there(
    w: Walk,
    devices: Seq<(u32, bool)>,
    children: Seq<u32>,
    hits: Seq<Option<(DeviceType, u32)>>,
)
    requires
        w.phase == WalkPhase::Idle || w.phase == WalkPhase::Done,
        devices.len() <= u32::MAX,
        children.len() == hits.len() <= usize::MAX,
    ensures
        ({
            let none = DeviceIds { keyboard_id: None, mouse_id: None };
            let started = after_start(w);
            let opened = after_snapshot_opened(started.0, true);
            let scanned = after_scan(opened.0, devices, 0);
            let closed = after_snapshot_closed(scanned.0, true);
            &&& started.1 == WalkAction::OpenSnapshot
            &&& opened.1 == WalkAction::ReadDevice(0)
            &&& scanned.1 == WalkAction::CloseSnapshot
            &&& match first_bus(devices) {
                None => closed.1 == WalkAction::Finished(Ok(none)),
                Some(bus) => {
                    &&& closed.1 == WalkAction::FirstChild(bus)
                    &&& if children.len() == 0 {
                        after_child(closed.0, None).1 == WalkAction::Finished(Ok(none))
                    } else {
                        let met = after_child(after_children(closed.0, children), None);
                        &&& met.1 == WalkAction::ReadInstanceId(children[0])
                        &&& after_instance_id(after_hits(met.0, hits.drop_last()), hits.last()).1
                            == WalkAction::Finished(Ok(noted_all(none, hits)))
                    }
                },
            }
        }),
{
    let started = after_start(w);
    let opened = after_snapshot_opened(started.0, true);
    lemma_scan_finds_first_bus(opened.0, devices, 0);
    assert(devices.subrange(0, devices.len() as int) =~= devices);
    let scanned = after_scan(opened.0, devices, 0);
    let closed = after_snapshot_closed(scanned.0, true);
    if first_bus(devices) is Some && children.len() > 0 {
        lemma_children_in_order(closed.0, children);
        let met = after_child(after_children(closed.0, children), None);
        lemma_walk_reads_every_child(met.0, hits);
    }
}

} // verus!
