//! Logical key codes and the low-level key events synthesised from them.
use vstd::prelude::*;

verus! {

/// Virtual-key code of the TAB key.
pub const VK_TAB: u16 = 0x09;

/// Virtual-key code of the SHIFT key.
pub const VK_SHIFT: u16 = 0x10;

/// Virtual-key code of the CONTROL key.
pub const VK_CONTROL: u16 = 0x11;

/// Virtual-key code of the ALT (menu) key.
pub const VK_MENU: u16 = 0x12;

/// Virtual-key code of the left OS key.
pub const VK_LWIN: u16 = 0x5B;

/// Virtual-key code of the right OS key.
pub const VK_RWIN: u16 = 0x5C;

/// Event flag: the key is being released.
pub const KEYEVENTF_KEYUP: u32 = 0x0002;

/// Event flag: the event carries a Unicode code unit rather than a virtual key.
pub const KEYEVENTF_UNICODE: u32 = 0x0004;

/// How a key code is delivered to the operating system.
#[derive(Clone, Copy, Debug, PartialEq, Eq, Structural)]
pub enum Modality {
    /// As a virtual-key identifier.
    VirtualKey,
    /// As a literal Unicode code unit.
    Character,
}

/// The allow-list of virtual keys: TAB, SHIFT, CONTROL, ALT and the two OS keys.
/// Every other 16-bit value, letters included, is typed as a character.
pub open spec fn is_virtual_key(code: u16) -> bool {
    code == VK_TAB || code == VK_SHIFT || code == VK_CONTROL || code == VK_MENU
        || code == VK_LWIN || code == VK_RWIN
}

pub open spec fn modality_of(code: u16) -> Modality {
    if is_virtual_key(code) {
        Modality::VirtualKey
    } else {
        Modality::Character
    }
}

/// Classifies a key code; the classification is total over all 16-bit values.
pub fn classify(code: u16) -> (m: Modality)
    ensures
        m == modality_of(code),
        m == Modality::VirtualKey <==> is_virtual_key(code),
{
    if code == VK_TAB || code == VK_SHIFT || code == VK_CONTROL || code == VK_MENU
        || code == VK_LWIN || code == VK_RWIN {
        Modality::VirtualKey
    } else {
        Modality::Character
    }
}

/// A synthesised keyboard input record: exactly one of `virtual_key` and
/// `character` is in use, as `flags` tells (`KEYEVENTF_UNICODE`), and
/// `KEYEVENTF_KEYUP` marks a release.
#[derive(Clone, Copy, Debug, PartialEq, Eq, Structural)]
pub struct KeyEvent {
    pub virtual_key: u16,
    pub character: u16,
    pub flags: u32,
}

pub open spec fn down_event_of(code: u16) -> KeyEvent {
    match modality_of(code) {
        Modality::VirtualKey => KeyEvent { virtual_key: code, character: 0, flags: 0 },
        Modality::Character => KeyEvent { virtual_key: 0, character: code, flags: KEYEVENTF_UNICODE },
    }
}

pub open spec fn up_event_of(code: u16) -> KeyEvent {
    match modality_of(code) {
        Modality::VirtualKey => KeyEvent { virtual_key: code, character: 0, flags: KEYEVENTF_KEYUP },
        Modality::Character => KeyEvent {
            virtual_key: 0,
            character: code,
            flags: KEYEVENTF_UNICODE | KEYEVENTF_KEYUP,
        },
    }
}

/// The events for a whole input: for each code in order, its down-event
/// followed directly by its up-event.
pub open spec fn event_stream(input: Seq<u16>) -> Seq<KeyEvent> {
    Seq::new(
        2 * input.len(),
        |j: int|
            if j % 2 == 0 {
                down_event_of(input[j / 2])
            } else {
                up_event_of(input[j / 2])
            },
    )
}

/// The key-press event for `code`.
pub fn key_down(code: u16) -> (e: KeyEvent)
    ensures
        e == down_event_of(code),
{
    match classify(code) {
        Modality::VirtualKey => KeyEvent { virtual_key: code, character: 0, flags: 0 },
        Modality::Character => KeyEvent { virtual_key: 0, character: code, flags: KEYEVENTF_UNICODE },
    }
}

/// The key-release event for `code`.
pub fn key_up(code: u16) -> (e: KeyEvent)
    ensures
        e == up_event_of(code),
{
    match classify(code) {
        Modality::VirtualKey => KeyEvent { virtual_key: code, character: 0, flags: KEYEVENTF_KEYUP },
        Modality::Character => KeyEvent {
            virtual_key: 0,
            character: code,
            flags: KEYEVENTF_UNICODE | KEYEVENTF_KEYUP,
        },
    }
}

/// Builds the ordered event stream for `input`.
pub fn key_events(input: &Vec<u16>) -> (events: Vec<KeyEvent>)
    requires
        2 * input@.len() <= usize::MAX,
    ensures
        events@ == event_stream(input@),
{
    let mut events: Vec<KeyEvent> = Vec::new();
    let mut i: usize = 0;
    while i < input.len()
        invariant
            i <= input@.len(),
            2 * input@.len() <= usize::MAX,
            events@ == event_stream(input@.take(i as int)),
        decreases input@.len() - i,
    {
        let code = input[i];
        events.push(key_down(code));
        events.push(key_up(code));
        proof {
            assert(input@.take(i as int + 1)[i as int] == code);
            assert forall|k: int| 0 <= k < i as int implies input@.take(i as int + 1)[k]
                == input@.take(i as int)[k] by {}
            assert(events@ =~= event_stream(input@.take(i as int + 1)));
        }
        i = i + 1;
    }
    assert(input@.take(i as int) =~= input@);
    events
}

/// In the event stream of an input, the `k`-th key's down-event stands at
/// position `2k` and its up-event directly after it, at `2k + 1`: each key is
/// released before the next one is pressed, and keys follow input order.
pub proof fn lemma_event_order(input: Seq<u16>)
    ensures
        event_stream(input).len() == 2 * input.len(),
        forall|k: int|
            #![trigger input[k]]
            0 <= k < input.len() ==> {
                &&& event_stream(input)[2 * k] == down_event_of(input[k])
                &&& event_stream(input)[2 * k + 1] == up_event_of(input[k])
            },
{
    assert forall|k: int| #![trigger input[k]] 0 <= k < input.len() implies {
        &&& event_stream(input)[2 * k] == down_event_of(input[k])
        &&& event_stream(input)[2 * k + 1] == up_event_of(input[k])
    } by {
        assert((2 * k) / 2 == k && (2 * k) % 2 == 0);
        assert((2 * k + 1) / 2 == k && (2 * k + 1) % 2 == 1);
    }
}

} // verus!
