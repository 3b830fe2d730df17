//! What the library has to say of the HID transport: which of the enumerated
//! devices are watched, and the frames that ask a device for its status.
//!
//! The transport itself, which enumerates, opens, reads and writes, is not
//! here. It hands in a `DeviceDescriptor` for each device it has enumerated,
//! and sends the frames that it gets from here.

use crate::keychron_device::{classified, classify, KeychronDevice, KeychronDeviceCategory};
use vstd::prelude::*;

verus! {

/// The vendor id of every device in the catalog.
pub const KEYCHRON_VENDOR_ID: u16 = 0x3434;

/// The usage of the interface that carries the status.
pub const KEYCHRON_USAGE: u16 = 0x1;

/// The usage page of the interface that carries the status.
pub const KEYCHRON_USAGE_PAGE: u16 = 0xffc1;

/// Length of the frames that are read from a device.
pub const INPUT_FRAME_LEN: usize = 64;

/// The bus that a device is attached to.
#[derive(Debug, Eq, PartialEq, Copy, Clone, Hash, Structural)]
pub enum BusType {
    Unknown,
    Usb,
    Bluetooth,
    I2c,
    Spi,
}

/// What the enumeration tells of one device.
#[derive(Debug, Eq, PartialEq, Copy, Clone, Hash, Structural)]
pub struct DeviceDescriptor {
    pub vendor_id: u16,
    pub product_id: u16,
    pub usage: u16,
    pub usage_page: u16,
    pub bus_type: BusType,
}

impl DeviceDescriptor {
    /// The device of the catalog that the descriptor stands for, if any.
    pub open spec fn device(self) -> Option<KeychronDevice> {
        classified(self.vendor_id, self.product_id)
    }

    /// Whether the device can be watched: it is on USB, has the usage and the
    /// usage page of the status interface, and is in the catalog.
    pub open spec fn is_candidate(self) -> bool {
        &&& self.bus_type == BusType::Usb
        &&& self.usage == KEYCHRON_USAGE
        &&& self.usage_page == KEYCHRON_USAGE_PAGE
        &&& self.device() is Some
    }

    /// Whether the device is a candidate other than a receiver.
    pub open spec fn is_direct_candidate(self) -> bool {
        self.is_candidate() && self.device()->Some_0.category() != KeychronDeviceCategory::Receiver
    }

    /// The device of the catalog that the descriptor stands for, if it can
    /// be watched.
    pub fn candidate(&self) -> (found: Option<KeychronDevice>)
        ensures
            found is Some <==> self.is_candidate(),
            found is Some ==> found == self.device(),
    {
        if self.bus_type == BusType::Usb && self.usage == KEYCHRON_USAGE && self.usage_page
            == KEYCHRON_USAGE_PAGE {
            classify(self.vendor_id, self.product_id)
        } else {
            None
        }
    }
}

/// The positions `0, 1, ..` below `n`, in their order.
pub open spec fn positions(n: nat) -> Seq<usize> {
    Seq::new(n, |i: int| i as usize)
}

/// The positions of the candidates among `devs`, in their order.
pub open spec fn candidates(devs: Seq<DeviceDescriptor>) -> Seq<usize> {
    positions(devs.len()).filter(|p: usize| devs[p as int].is_candidate())
}

/// The positions of the candidates other than receivers among `devs`, in
/// their order.
pub open spec fn direct_candidates(devs: Seq<DeviceDescriptor>) -> Seq<usize> {
    positions(devs.len()).filter(|p: usize| devs[p as int].is_direct_candidate())
}

/// The positions of the devices to watch among `devs`, the first being the
/// one to open. A single candidate is taken as it is. Of two or more, those
/// other than receivers are taken if there are any, else all.
pub open spec fn selected(devs: Seq<DeviceDescriptor>) -> Seq<usize> {
    let all = candidates(devs);
    if all.len() < 2 {
        all
    } else {
        let direct = direct_candidates(devs);
        if direct.len() > 0 {
            direct
        } else {
            all
        }
    }
}

proof fn lemma_filter_push<A>(s: Seq<A>, x: A, pred: spec_fn(A) -> bool)
    ensures
        s.push(x).filter(pred) == if pred(x) {
            s.filter(pred).push(x)
        } else {
            s.filter(pred)
        },
{
    reveal(Seq::filter);
    assert(s.push(x).drop_last() =~= s);
}

proof fn lemma_positions_push(n: nat)
    requires
        n < usize::MAX,
    ensures
        positions(n + 1) == positions(n).push(n as usize),
{
    assert(positions(n + 1) =~= positions(n).push(n as usize));
}

/// Lists the compatible devices among the enumerated ones, by their positions
/// in `devs`.
pub fn list_compatible_devices(devs: &[DeviceDescriptor]) -> (sel: Vec<usize>)
    ensures
        sel@ == selected(devs@),
{
    let mut all: Vec<usize> = Vec::new();
    let mut direct: Vec<usize> = Vec::new();
    let ghost is_candidate = |p: usize| devs@[p as int].is_candidate();
    let ghost is_direct = |p: usize| devs@[p as int].is_direct_candidate();
    proof {
        reveal(Seq::filter);
        assert(positions(0) =~= Seq::empty());
    }
    let mut i: usize = 0;
    while i < devs.len()
        invariant
            i <= devs@.len(),
            is_candidate == |p: usize| devs@[p as int].is_candidate(),
            is_direct == |p: usize| devs@[p as int].is_direct_candidate(),
            all@ == positions(i as nat).filter(is_candidate),
            direct@ == positions(i as nat).filter(is_direct),
        decreases devs@.len() - i,
    {
        proof {
            lemma_positions_push(i as nat);
            lemma_filter_push(positions(i as nat), i, is_candidate);
            lemma_filter_push(positions(i as nat), i, is_direct);
        }
        match devs[i].candidate() {
            Some(device) => {
                all.push(i);
                if device.device_type() != KeychronDeviceCategory::Receiver {
                    direct.push(i);
                }
            },
            None => {},
        }
        i = i + 1;
    }
    if all.len() < 2 {
        all
    } else if direct.len() > 0 {
        direct
    } else {
        all
    }
}

/// Every position that is selected is in range and holds a candidate, and
/// something is selected exactly when there is a candidate.
pub proof fn lemma_selected_are_candidates(devs: Seq<DeviceDescriptor>)
    requires
        devs.len() <= usize::MAX,
    ensures
        forall|i: int|
            0 <= i < selected(devs).len() ==> (#[trigger] selected(devs)[i]) < devs.len()
                && devs[selected(devs)[i] as int].is_candidate(),
        selected(devs).len() > 0 <==> exists|p: int|
            0 <= p < devs.len() && (#[trigger] devs[p]).is_candidate(),
{
    let all_pos = positions(devs.len());
    let is_candidate = |p: usize| devs[p as int].is_candidate();
    let is_direct = |p: usize| devs[p as int].is_direct_candidate();
    let sel = selected(devs);
    assert forall|i: int| 0 <= i < sel.len() implies (#[trigger] sel[i]) < devs.len()
        && devs[sel[i] as int].is_candidate() by {
        if sel == candidates(devs) {
            all_pos.lemma_filter_pred(is_candidate, i);
            all_pos.lemma_filter_contains_rev(is_candidate, sel[i]);
        } else {
            all_pos.lemma_filter_pred(is_direct, i);
            all_pos.lemma_filter_contains_rev(is_direct, sel[i]);
        }
    }
    if exists|p: int| 0 <= p < devs.len() && (#[trigger] devs[p]).is_candidate() {
        let p = choose|p: int| 0 <= p < devs.len() && (#[trigger] devs[p]).is_candidate();
        assert(all_pos[p] == p as usize);
        all_pos.lemma_filter_contains(is_candidate, p);
        assert(candidates(devs).len() > 0);
    }
    if sel.len() > 0 {
        assert(devs[sel[0] as int].is_candidate());
    }
}

/// While a candidate other than a receiver is there, no receiver is selected.
pub proof fn lemma_receiver_yields(devs: Seq<DeviceDescriptor>, direct: int)
    requires
        devs.len() <= usize::MAX,
        0 <= direct < devs.len(),
        devs[direct].is_direct_candidate(),
    ensures
        forall|i: int|
            0 <= i < selected(devs).len() ==> devs[(#[trigger] selected(devs)[i]) as int]
                .is_direct_candidate(),
        selected(devs).contains(direct as usize),
{
    let all_pos = positions(devs.len());
    let is_candidate = |p: usize| devs[p as int].is_candidate();
    let is_direct = |p: usize| devs[p as int].is_direct_candidate();
    let sel = selected(devs);
    assert(all_pos[direct] == direct as usize);
    all_pos.lemma_filter_contains(is_candidate, direct);
    all_pos.lemma_filter_contains(is_direct, direct);
    assert(direct_candidates(devs).len() > 0);
    if candidates(devs).len() < 2 {
        assert forall|i: int| 0 <= i < sel.len() implies devs[(#[trigger] sel[i]) as int]
            .is_direct_candidate() by {
            let j = choose|j: int|
                0 <= j < candidates(devs).len() && candidates(devs)[j] == direct as usize;
            assert(i == j);
        }
    } else {
        assert forall|i: int| 0 <= i < sel.len() implies devs[(#[trigger] sel[i]) as int]
            .is_direct_candidate() by {
            all_pos.lemma_filter_pred(is_direct, i);
        }
    }
}

/// A single candidate is taken, whatever its category.
pub proof fn lemma_single_candidate_is_selected(device: DeviceDescriptor)
    requires
        device.is_candidate(),
    ensures
        selected(seq![device]) == seq![0usize],
{
    let devs = seq![device];
    let is_candidate = |p: usize| devs[p as int].is_candidate();
    assert(positions(1) =~= Seq::<usize>::empty().push(0usize));
    lemma_filter_push(Seq::<usize>::empty(), 0usize, is_candidate);
    reveal(Seq::filter);
    assert(candidates(devs) =~= seq![0usize]);
}

/// Of a receiver and a candidate other than a receiver, the other one is
/// taken, in whichever order the two were enumerated.
pub proof fn lemma_mouse_is_preferred(receiver: DeviceDescriptor, mouse: DeviceDescriptor)
    requires
        receiver.is_candidate(),
        !receiver.is_direct_candidate(),
        mouse.is_direct_candidate(),
    ensures
        selected(seq![receiver, mouse]) == seq![1usize],
        selected(seq![mouse, receiver]) == seq![0usize],
{
    lemma_pair(seq![receiver, mouse]);
    lemma_pair(seq![mouse, receiver]);
}

proof fn lemma_pair(devs: Seq<DeviceDescriptor>)
    requires
        devs.len() == 2,
        devs[0].is_candidate(),
        devs[1].is_candidate(),
    ensures
        candidates(devs) == seq![0usize, 1usize],
        direct_candidates(devs) == Seq::<usize>::empty() + (if devs[0].is_direct_candidate() {
            seq![0usize]
        } else {
            Seq::<usize>::empty()
        }) + (if devs[1].is_direct_candidate() {
            seq![1usize]
        } else {
            Seq::<usize>::empty()
        }),
{
    let is_candidate = |p: usize| devs[p as int].is_candidate();
    let is_direct = |p: usize| devs[p as int].is_direct_candidate();
    let none = Seq::<usize>::empty();
    assert(positions(2) =~= none.push(0usize).push(1usize));
    lemma_filter_push(none, 0usize, is_candidate);
    lemma_filter_push(none.push(0usize), 1usize, is_candidate);
    lemma_filter_push(none, 0usize, is_direct);
    lemma_filter_push(none.push(0usize), 1usize, is_direct);
    reveal(Seq::filter);
    assert(none.filter(is_candidate) =~= none);
    assert(none.filter(is_direct) =~= none);
    assert(candidates(devs) =~= seq![0usize, 1usize]);
    assert(direct_candidates(devs) =~= none + (if devs[0].is_direct_candidate() {
        seq![0usize]
    } else {
        none
    }) + (if devs[1].is_direct_candidate() {
        seq![1usize]
    } else {
        none
    }));
}

/// The bytes of the frame that asks a device for its description.
pub open spec fn info_request_bytes() -> Seq<u8> {
    Seq::new(
        21,
        |i: int|
            if i == 0 {
                181u8
            } else if i == 1 {
                2u8
            } else if i == 2 {
                1u8
            } else {
                0u8
            },
    )
}

/// The bytes of the frame that asks a device for its full status.
pub open spec fn full_status_request_bytes() -> Seq<u8> {
    Seq::new(
        64,
        |i: int|
            if i == 0 {
                179u8
            } else if i == 1 {
                6u8
            } else {
                0u8
            },
    )
}

/// The frame that asks a device for its description.
pub fn info_request() -> (frame: [u8; 21])
    ensures
        frame@ == info_request_bytes(),
{
    let mut frame = [0u8;21];
    frame[0] = 181;
    frame[1] = 2;
    frame[2] = 1;
    assert(frame@ =~= info_request_bytes());
    frame
}

/// The frame that asks a device for its full status.
pub fn full_status_request() -> (frame: [u8; 64])
    ensures
        frame@ == full_status_request_bytes(),
{
    let mut frame = [0u8;64];
    frame[0] = 179;
    frame[1] = 6;
    assert(frame@ =~= full_status_request_bytes());
    frame
}

} // verus!
