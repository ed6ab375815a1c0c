//! Configurable key bindings and their on-disk text format.
//!
//! The bindings are persisted as a small record in a parenthesized,
//! one-field-per-line text form, each key named by its identifier (the
//! letters `A` to `Z`, the arrow keys, `Space`, `Escape`, `Return`, `Tab`).
//! The library owns the byte format: encoding is a total function of the
//! bindings, decoding accepts exactly the canonical encoding and answers
//! `None` for anything else (a corrupt file is a fatal configuration error
//! for the caller, not something to repair). Reading and writing the actual
//! file is the shell's job.

use vstd::prelude::*;

verus! {

/// A bindable key: the closed set of keys this game lets the player map
/// actions to.
#[derive(Debug, Clone, Copy, PartialEq, Eq, Structural, Hash)]
pub enum KeyCode {
    A,
    B,
    C,
    D,
    E,
    F,
    G,
    H,
    I,
    J,
    K,
    L,
    M,
    N,
    O,
    P,
    Q,
    R,
    S,
    T,
    U,
    V,
    W,
    X,
    Y,
    Z,
    Up,
    Down,
    Left,
    Right,
    Space,
    Escape,
    Return,
    Tab,
}

/// Configurable key bindings.
#[derive(Debug, Clone, Copy, PartialEq, Eq, Structural, Hash)]
pub struct KeyBinds {
    pub move_forward: KeyCode,
    pub move_left: KeyCode,
    pub move_backward: KeyCode,
    pub move_right: KeyCode,
    pub interact: KeyCode,
}

/// The default bindings.
pub open spec fn spec_default_key_binds() -> KeyBinds {
    KeyBinds {
        move_forward: KeyCode::W,
        move_left: KeyCode::A,
        move_backward: KeyCode::S,
        move_right: KeyCode::D,
        interact: KeyCode::E,
    }
}

impl Default for KeyBinds {
    /// Move on W/A/S/D, interact on E.
    fn default() -> (r: KeyBinds)
        ensures
            r == spec_default_key_binds(),
    {
        KeyBinds {
            move_forward: KeyCode::W,
            move_left: KeyCode::A,
            move_backward: KeyCode::S,
            move_right: KeyCode::D,
            interact: KeyCode::E,
        }
    }
}

/// The identifier under which a key is written in the config file.
pub open spec fn key_name(k: KeyCode) -> Seq<u8> {
    match k {
        KeyCode::A => seq![65u8],
        KeyCode::B => seq![66u8],
        KeyCode::C => seq![67u8],
        KeyCode::D => seq![68u8],
        KeyCode::E => seq![69u8],
        KeyCode::F => seq![70u8],
        KeyCode::G => seq![71u8],
        KeyCode::H => seq![72u8],
        KeyCode::I => seq![73u8],
        KeyCode::J => seq![74u8],
        KeyCode::K => seq![75u8],
        KeyCode::L => seq![76u8],
        KeyCode::M => seq![77u8],
        KeyCode::N => seq![78u8],
        KeyCode::O => seq![79u8],
        KeyCode::P => seq![80u8],
        KeyCode::Q => seq![81u8],
        KeyCode::R => seq![82u8],
        KeyCode::S => seq![83u8],
        KeyCode::T => seq![84u8],
        KeyCode::U => seq![85u8],
        KeyCode::V => seq![86u8],
        KeyCode::W => seq![87u8],
        KeyCode::X => seq![88u8],
        KeyCode::Y => seq![89u8],
        KeyCode::Z => seq![90u8],
        KeyCode::Up => seq![85u8, 112u8],
        KeyCode::Down => seq![68u8, 111u8, 119u8, 110u8],
        KeyCode::Left => seq![76u8, 101u8, 102u8, 116u8],
        KeyCode::Right => seq![82u8, 105u8, 103u8, 104u8, 116u8],
        KeyCode::Space => seq![83u8, 112u8, 97u8, 99u8, 101u8],
        KeyCode::Escape => seq![69u8, 115u8, 99u8, 97u8, 112u8, 101u8],
        KeyCode::Return => seq![82u8, 101u8, 116u8, 117u8, 114u8, 110u8],
        KeyCode::Tab => seq![84u8, 97u8, 98u8],
    }
}

/// The key a single-letter identifier names (byte values are ASCII codes).
pub open spec fn letter_of(b: u8) -> Option<KeyCode> {
    if b == 65 {
        Some(KeyCode::A)
    } else if b == 66 {
        Some(KeyCode::B)
    } else if b == 67 {
        Some(KeyCode::C)
    } else if b == 68 {
        Some(KeyCode::D)
    } else if b == 69 {
        Some(KeyCode::E)
    } else if b == 70 {
        Some(KeyCode::F)
    } else if b == 71 {
        Some(KeyCode::G)
    } else if b == 72 {
        Some(KeyCode::H)
    } else if b == 73 {
        Some(KeyCode::I)
    } else if b == 74 {
        Some(KeyCode::J)
    } else if b == 75 {
        Some(KeyCode::K)
    } else if b == 76 {
        Some(KeyCode::L)
    } else if b == 77 {
        Some(KeyCode::M)
    } else if b == 78 {
        Some(KeyCode::N)
    } else if b == 79 {
        Some(KeyCode::O)
    } else if b == 80 {
        Some(KeyCode::P)
    } else if b == 81 {
        Some(KeyCode::Q)
    } else if b == 82 {
        Some(KeyCode::R)
    } else if b == 83 {
        Some(KeyCode::S)
    } else if b == 84 {
        Some(KeyCode::T)
    } else if b == 85 {
        Some(KeyCode::U)
    } else if b == 86 {
        Some(KeyCode::V)
    } else if b == 87 {
        Some(KeyCode::W)
    } else if b == 88 {
        Some(KeyCode::X)
    } else if b == 89 {
        Some(KeyCode::Y)
    } else if b == 90 {
        Some(KeyCode::Z)
    } else {
        None
    }
}

/// The key an identifier token names, or `None` for an unknown token.
pub open spec fn key_of_name(t: Seq<u8>) -> Option<KeyCode> {
    if t.len() == 1 {
        letter_of(t[0])
    } else if t == seq![85u8, 112u8] {
        Some(KeyCode::Up)
    } else if t == seq![68u8, 111u8, 119u8, 110u8] {
        Some(KeyCode::Down)
    } else if t == seq![76u8, 101u8, 102u8, 116u8] {
        Some(KeyCode::Left)
    } else if t == seq![82u8, 105u8, 103u8, 104u8, 116u8] {
        Some(KeyCode::Right)
    } else if t == seq![83u8, 112u8, 97u8, 99u8, 101u8] {
        Some(KeyCode::Space)
    } else if t == seq![69u8, 115u8, 99u8, 97u8, 112u8, 101u8] {
        Some(KeyCode::Escape)
    } else if t == seq![82u8, 101u8, 116u8, 117u8, 114u8, 110u8] {
        Some(KeyCode::Return)
    } else if t == seq![84u8, 97u8, 98u8] {
        Some(KeyCode::Tab)
    } else {
        None
    }
}

/// Bytes of the fixed text standing before the first binding in the file: `"(\n    move_forward: "`.
pub open spec fn seg0() -> Seq<u8> {
    seq![40u8, 10u8, 32u8, 32u8, 32u8, 32u8, 109u8, 111u8, 118u8, 101u8, 95u8, 102u8, 111u8, 114u8, 119u8, 97u8, 114u8, 100u8, 58u8, 32u8]
}

fn seg0_bytes() -> (r: Vec<u8>)
    ensures
        r@ == seg0(),
{
    let r: Vec<u8> = vec![40u8, 10u8, 32u8, 32u8, 32u8, 32u8, 109u8, 111u8, 118u8, 101u8, 95u8, 102u8, 111u8, 114u8, 119u8, 97u8, 114u8, 100u8, 58u8, 32u8];
    proof {
        assert(r@ =~= seg0());
    }
    r
}

/// Bytes of the fixed text standing before binding 2 in the file: `",\n    move_left: "`.
pub open spec fn seg1() -> Seq<u8> {
    seq![44u8, 10u8, 32u8, 32u8, 32u8, 32u8, 109u8, 111u8, 118u8, 101u8, 95u8, 108u8, 101u8, 102u8, 116u8, 58u8, 32u8]
}

fn seg1_bytes() -> (r: Vec<u8>)
    ensures
        r@ == seg1(),
{
    let r: Vec<u8> = vec![44u8, 10u8, 32u8, 32u8, 32u8, 32u8, 109u8, 111u8, 118u8, 101u8, 95u8, 108u8, 101u8, 102u8, 116u8, 58u8, 32u8];
    proof {
        assert(r@ =~= seg1());
    }
    r
}

/// Bytes of the fixed text standing before binding 3 in the file: `",\n    move_backward: "`.
pub open spec fn seg2() -> Seq<u8> {
    seq![44u8, 10u8, 32u8, 32u8, 32u8, 32u8, 109u8, 111u8, 118u8, 101u8, 95u8, 98u8, 97u8, 99u8, 107u8, 119u8, 97u8, 114u8, 100u8, 58u8, 32u8]
}

fn seg2_bytes() -> (r: Vec<u8>)
    ensures
        r@ == seg2(),
{
    let r: Vec<u8> = vec![44u8, 10u8, 32u8, 32u8, 32u8, 32u8, 109u8, 111u8, 118u8, 101u8, 95u8, 98u8, 97u8, 99u8, 107u8, 119u8, 97u8, 114u8, 100u8, 58u8, 32u8];
    proof {
        assert(r@ =~= seg2());
    }
    r
}

/// Bytes of the fixed text standing before binding 4 in the file: `",\n    move_right: "`.
pub open spec fn seg3() -> Seq<u8> {
    seq![44u8, 10u8, 32u8, 32u8, 32u8, 32u8, 109u8, 111u8, 118u8, 101u8, 95u8, 114u8, 105u8, 103u8, 104u8, 116u8, 58u8, 32u8]
}

fn seg3_bytes() -> (r: Vec<u8>)
    ensures
        r@ == seg3(),
{
    let r: Vec<u8> = vec![44u8, 10u8, 32u8, 32u8, 32u8, 32u8, 109u8, 111u8, 118u8, 101u8, 95u8, 114u8, 105u8, 103u8, 104u8, 116u8, 58u8, 32u8];
    proof {
        assert(r@ =~= seg3());
    }
    r
}

/// Bytes of the fixed text standing before binding 5 in the file: `",\n    interact: "`.
pub open spec fn seg4() -> Seq<u8> {
    seq![44u8, 10u8, 32u8, 32u8, 32u8, 32u8, 105u8, 110u8, 116u8, 101u8, 114u8, 97u8, 99u8, 116u8, 58u8, 32u8]
}

fn seg4_bytes() -> (r: Vec<u8>)
    ensures
        r@ == seg4(),
{
    let r: Vec<u8> = vec![44u8, 10u8, 32u8, 32u8, 32u8, 32u8, 105u8, 110u8, 116u8, 101u8, 114u8, 97u8, 99u8, 116u8, 58u8, 32u8];
    proof {
        assert(r@ =~= seg4());
    }
    r
}

/// Bytes of the fixed text standing before the closing parenthesis in the file: `",\n)"`.
pub open spec fn seg5() -> Seq<u8> {
    seq![44u8, 10u8, 41u8]
}

fn seg5_bytes() -> (r: Vec<u8>)
    ensures
        r@ == seg5(),
{
    let r: Vec<u8> = vec![44u8, 10u8, 41u8];
    proof {
        assert(r@ =~= seg5());
    }
    r
}

/// The canonical encoding of a binding configuration.
pub open spec fn spec_encode(kb: KeyBinds) -> Seq<u8> {
    seg0() + key_name(kb.move_forward) + seg1() + key_name(kb.move_left) + seg2() + key_name(
        kb.move_backward,
    ) + seg3() + key_name(kb.move_right) + seg4() + key_name(kb.interact) + seg5()
}

/// An ASCII letter, as the token scanner sees it.
pub open spec fn is_alpha(b: u8) -> bool {
    (65 <= b && b <= 90) || (97 <= b && b <= 122)
}

/// Where the run of letters starting at `i` ends.
pub open spec fn alpha_end(s: Seq<u8>, i: int) -> int
    decreases s.len() - i when 0 <= i <= s.len()
{
    if i < s.len() && is_alpha(s[i]) {
        alpha_end(s, i + 1)
    } else {
        i
    }
}

/// Matching the fixed text `seg` at position `i`: the position after it, or
/// `None` where the input differs.
pub open spec fn match_seg(s: Seq<u8>, i: int, seg: Seq<u8>) -> Option<int> {
    if 0 <= i && i + seg.len() <= s.len() && s.subrange(i, i + seg.len()) == seg {
        Some(i + seg.len())
    } else {
        None
    }
}

/// Reading one key identifier at position `i`: the key and the position
/// after its token, or `None` for an unknown token.
pub open spec fn parse_key_at(s: Seq<u8>, i: int) -> Option<(KeyCode, int)>
    recommends
        0 <= i <= s.len(),
{
    let e = alpha_end(s, i);
    match key_of_name(s.subrange(i, e)) {
        Some(k) => Some((k, e)),
        None => None,
    }
}

/// The decoding of a whole file: exactly the canonical form, else `None`.
pub open spec fn spec_decode(s: Seq<u8>) -> Option<KeyBinds> {
    match match_seg(s, 0, seg0()) {
        None => None,
        Some(i0) => match parse_key_at(s, i0) {
            None => None,
            Some((k1, j1)) => match match_seg(s, j1, seg1()) {
                None => None,
                Some(i1) => match parse_key_at(s, i1) {
                    None => None,
                    Some((k2, j2)) => match match_seg(s, j2, seg2()) {
                        None => None,
                        Some(i2) => match parse_key_at(s, i2) {
                            None => None,
                            Some((k3, j3)) => match match_seg(s, j3, seg3()) {
                                None => None,
                                Some(i3) => match parse_key_at(s, i3) {
                                    None => None,
                                    Some((k4, j4)) => match match_seg(s, j4, seg4()) {
                                        None => None,
                                        Some(i4) => match parse_key_at(s, i4) {
                                            None => None,
                                            Some((k5, j5)) => match match_seg(s, j5, seg5()) {
                                                None => None,
                                                Some(end) => if end == s.len() {
                                                    Some(KeyBinds {
                                                        move_forward: k1,
                                                        move_left: k2,
                                                        move_backward: k3,
                                                        move_right: k4,
                                                        interact: k5,
                                                    })
                                                } else {
                                                    None
                                                },
                                            },
                                        },
                                    },
                                },
                            },
                        },
                    },
                },
            },
        },
    }
}
/// Appends `src` to `out`.
fn append_bytes(out: &mut Vec<u8>, src: &Vec<u8>)
    ensures
        final(out)@ == old(out)@ + src@,
{
    let mut j: usize = 0;
    proof {
        assert(out@ =~= old(out)@ + src@.take(0));
    }
    while j < src.len()
        invariant
            j <= src.len(),
            out@ == old(out)@ + src@.take(j as int),
        decreases src.len() - j,
    {
        out.push(src[j]);
        proof {
            assert(out@ =~= old(out)@ + src@.take(j + 1));
        }
        j = j + 1;
    }
    proof {
        assert(old(out)@ + src@.take(src@.len() as int) =~= old(out)@ + src@);
    }
}

/// The identifier bytes of one key, as [`key_name`] states them.
pub fn key_name_bytes(k: KeyCode) -> (r: Vec<u8>)
    ensures
        r@ == key_name(k),
{
    match k {
        KeyCode::A => {
            let r: Vec<u8> = vec![65u8];
            proof {
                assert(r@ =~= key_name(KeyCode::A));
            }
            r
        },
        KeyCode::B => {
            let r: Vec<u8> = vec![66u8];
            proof {
                assert(r@ =~= key_name(KeyCode::B));
            }
            r
        },
        KeyCode::C => {
            let r: Vec<u8> = vec![67u8];
            proof {
                assert(r@ =~= key_name(KeyCode::C));
            }
            r
        },
        KeyCode::D => {
            let r: Vec<u8> = vec![68u8];
            proof {
                assert(r@ =~= key_name(KeyCode::D));
            }
            r
        },
        KeyCode::E => {
            let r: Vec<u8> = vec![69u8];
            proof {
                assert(r@ =~= key_name(KeyCode::E));
            }
            r
        },
        KeyCode::F => {
            let r: Vec<u8> = vec![70u8];
            proof {
                assert(r@ =~= key_name(KeyCode::F));
            }
            r
        },
        KeyCode::G => {
            let r: Vec<u8> = vec![71u8];
            proof {
                assert(r@ =~= key_name(KeyCode::G));
            }
            r
        },
        KeyCode::H => {
            let r: Vec<u8> = vec![72u8];
            proof {
                assert(r@ =~= key_name(KeyCode::H));
            }
            r
        },
        KeyCode::I => {
            let r: Vec<u8> = vec![73u8];
            proof {
                assert(r@ =~= key_name(KeyCode::I));
            }
            r
        },
        KeyCode::J => {
            let r: Vec<u8> = vec![74u8];
            proof {
                assert(r@ =~= key_name(KeyCode::J));
            }
            r
        },
        KeyCode::K => {
            let r: Vec<u8> = vec![75u8];
            proof {
                assert(r@ =~= key_name(KeyCode::K));
            }
            r
        },
        KeyCode::L => {
            let r: Vec<u8> = vec![76u8];
            proof {
                assert(r@ =~= key_name(KeyCode::L));
            }
            r
        },
        KeyCode::M => {
            let r: Vec<u8> = vec![77u8];
            proof {
                assert(r@ =~= key_name(KeyCode::M));
            }
            r
        },
        KeyCode::N => {
            let r: Vec<u8> = vec![78u8];
            proof {
                assert(r@ =~= key_name(KeyCode::N));
            }
            r
        },
        KeyCode::O => {
            let r: Vec<u8> = vec![79u8];
            proof {
                assert(r@ =~= key_name(KeyCode::O));
            }
            r
        },
        KeyCode::P => {
            let r: Vec<u8> = vec![80u8];
            proof {
                assert(r@ =~= key_name(KeyCode::P));
            }
            r
        },
        KeyCode::Q => {
            let r: Vec<u8> = vec![81u8];
            proof {
                assert(r@ =~= key_name(KeyCode::Q));
            }
            r
        },
        KeyCode::R => {
            let r: Vec<u8> = vec![82u8];
            proof {
                assert(r@ =~= key_name(KeyCode::R));
            }
            r
        },
        KeyCode::S => {
            let r: Vec<u8> = vec![83u8];
            proof {
                assert(r@ =~= key_name(KeyCode::S));
            }
            r
        },
        KeyCode::T => {
            let r: Vec<u8> = vec![84u8];
            proof {
                assert(r@ =~= key_name(KeyCode::T));
            }
            r
        },
        KeyCode::U => {
            let r: Vec<u8> = vec![85u8];
            proof {
                assert(r@ =~= key_name(KeyCode::U));
            }
            r
        },
        KeyCode::V => {
            let r: Vec<u8> = vec![86u8];
            proof {
                assert(r@ =~= key_name(KeyCode::V));
            }
            r
        },
        KeyCode::W => {
            let r: Vec<u8> = vec![87u8];
            proof {
                assert(r@ =~= key_name(KeyCode::W));
            }
            r
        },
        KeyCode::X => {
            let r: Vec<u8> = vec![88u8];
            proof {
                assert(r@ =~= key_name(KeyCode::X));
            }
            r
        },
        KeyCode::Y => {
            let r: Vec<u8> = vec![89u8];
            proof {
                assert(r@ =~= key_name(KeyCode::Y));
            }
            r
        },
        KeyCode::Z => {
            let r: Vec<u8> = vec![90u8];
            proof {
                assert(r@ =~= key_name(KeyCode::Z));
            }
            r
        },
        KeyCode::Up => {
            let r: Vec<u8> = vec![85u8, 112u8];
            proof {
                assert(r@ =~= key_name(KeyCode::Up));
            }
            r
        },
        KeyCode::Down => {
            let r: Vec<u8> = vec![68u8, 111u8, 119u8, 110u8];
            proof {
                assert(r@ =~= key_name(KeyCode::Down));
            }
            r
        },
        KeyCode::Left => {
            let r: Vec<u8> = vec![76u8, 101u8, 102u8, 116u8];
            proof {
                assert(r@ =~= key_name(KeyCode::Left));
            }
            r
        },
        KeyCode::Right => {
            let r: Vec<u8> = vec![82u8, 105u8, 103u8, 104u8, 116u8];
            proof {
                assert(r@ =~= key_name(KeyCode::Right));
            }
            r
        },
        KeyCode::Space => {
            let r: Vec<u8> = vec![83u8, 112u8, 97u8, 99u8, 101u8];
            proof {
                assert(r@ =~= key_name(KeyCode::Space));
            }
            r
        },
        KeyCode::Escape => {
            let r: Vec<u8> = vec![69u8, 115u8, 99u8, 97u8, 112u8, 101u8];
            proof {
                assert(r@ =~= key_name(KeyCode::Escape));
            }
            r
        },
        KeyCode::Return => {
            let r: Vec<u8> = vec![82u8, 101u8, 116u8, 117u8, 114u8, 110u8];
            proof {
                assert(r@ =~= key_name(KeyCode::Return));
            }
            r
        },
        KeyCode::Tab => {
            let r: Vec<u8> = vec![84u8, 97u8, 98u8];
            proof {
                assert(r@ =~= key_name(KeyCode::Tab));
            }
            r
        },
    }
}

/// Encodes a binding configuration into its canonical file bytes, exactly as
/// [`spec_encode`] states them.
pub fn encode_key_binds(kb: &KeyBinds) -> (r: Vec<u8>)
    ensures
        r@ == spec_encode(*kb),
{
    let mut out: Vec<u8> = Vec::new();
    let s0 = seg0_bytes();
    append_bytes(&mut out, &s0);
    let n1 = key_name_bytes(kb.move_forward);
    append_bytes(&mut out, &n1);
    let s1 = seg1_bytes();
    append_bytes(&mut out, &s1);
    let n2 = key_name_bytes(kb.move_left);
    append_bytes(&mut out, &n2);
    let s2 = seg2_bytes();
    append_bytes(&mut out, &s2);
    let n3 = key_name_bytes(kb.move_backward);
    append_bytes(&mut out, &n3);
    let s3 = seg3_bytes();
    append_bytes(&mut out, &s3);
    let n4 = key_name_bytes(kb.move_right);
    append_bytes(&mut out, &n4);
    let s4 = seg4_bytes();
    append_bytes(&mut out, &s4);
    let n5 = key_name_bytes(kb.interact);
    append_bytes(&mut out, &n5);
    let s5 = seg5_bytes();
    append_bytes(&mut out, &s5);
    proof {
        assert(out@ =~= spec_encode(*kb));
    }
    out
}

/// Matches the fixed text `seg` at position `i`, exactly as [`match_seg`]
/// states it.
fn match_seg_exec(bytes: &Vec<u8>, i: usize, seg: &Vec<u8>) -> (r: Option<usize>)
    ensures
        match r {
            Some(j) => match_seg(bytes@, i as int, seg@) == Some(j as int) && i <= j && j
                <= bytes@.len(),
            None => match_seg(bytes@, i as int, seg@) is None,
        },
{
    if i > bytes.len() || bytes.len() - i < seg.len() {
        return None;
    }
    let blen = bytes.len();
    let mut j: usize = 0;
    while j < seg.len()
        invariant
            i + seg@.len() <= blen,
            blen == bytes@.len(),
            j <= seg@.len(),
            forall|t: int| 0 <= t < j ==> bytes@[i + t] == seg@[t],
        decreases seg@.len() - j,
    {
        if bytes[i + j] != seg[j] {
            proof {
                assert(bytes@.subrange(i as int, i + seg@.len())[j as int] != seg@[j as int]);
            }
            return None;
        }
        j = j + 1;
    }
    proof {
        assert(bytes@.subrange(i as int, i + seg@.len()) =~= seg@);
    }
    Some(i + seg.len())
}

/// The key named by the token `bytes[i..end]`, exactly as [`key_of_name`]
/// states it.
fn key_from_token(bytes: &Vec<u8>, i: usize, end: usize) -> (r: Option<KeyCode>)
    requires
        i <= end <= bytes@.len(),
    ensures
        r == key_of_name(bytes@.subrange(i as int, end as int)),
{
    let ghost t = bytes@.subrange(i as int, end as int);
    let n = end - i;
    if n == 1 {
        let b = bytes[i];
        proof {
            assert(t.len() == 1 && t[0] == b);
        }
        if b == 65 {
            Some(KeyCode::A)
        } else         if b == 66 {
            Some(KeyCode::B)
        } else         if b == 67 {
            Some(KeyCode::C)
        } else         if b == 68 {
            Some(KeyCode::D)
        } else         if b == 69 {
            Some(KeyCode::E)
        } else         if b == 70 {
            Some(KeyCode::F)
        } else         if b == 71 {
            Some(KeyCode::G)
        } else         if b == 72 {
            Some(KeyCode::H)
        } else         if b == 73 {
            Some(KeyCode::I)
        } else         if b == 74 {
            Some(KeyCode::J)
        } else         if b == 75 {
            Some(KeyCode::K)
        } else         if b == 76 {
            Some(KeyCode::L)
        } else         if b == 77 {
            Some(KeyCode::M)
        } else         if b == 78 {
            Some(KeyCode::N)
        } else         if b == 79 {
            Some(KeyCode::O)
        } else         if b == 80 {
            Some(KeyCode::P)
        } else         if b == 81 {
            Some(KeyCode::Q)
        } else         if b == 82 {
            Some(KeyCode::R)
        } else         if b == 83 {
            Some(KeyCode::S)
        } else         if b == 84 {
            Some(KeyCode::T)
        } else         if b == 85 {
            Some(KeyCode::U)
        } else         if b == 86 {
            Some(KeyCode::V)
        } else         if b == 87 {
            Some(KeyCode::W)
        } else         if b == 88 {
            Some(KeyCode::X)
        } else         if b == 89 {
            Some(KeyCode::Y)
        } else         if b == 90 {
            Some(KeyCode::Z)
        } else {
            None
        }
    } else if n == 2 && bytes[i + 0] == 85 && bytes[i + 1] == 112 {
        proof {
            assert(t =~= seq![85u8, 112u8]);
        }
        Some(KeyCode::Up)
    } else if n == 4 && bytes[i + 0] == 68 && bytes[i + 1] == 111 && bytes[i + 2] == 119 && bytes[i + 3] == 110 {
        proof {
            assert(t =~= seq![68u8, 111u8, 119u8, 110u8]);
        }
        Some(KeyCode::Down)
    } else if n == 4 && bytes[i + 0] == 76 && bytes[i + 1] == 101 && bytes[i + 2] == 102 && bytes[i + 3] == 116 {
        proof {
            assert(t =~= seq![76u8, 101u8, 102u8, 116u8]);
        }
        Some(KeyCode::Left)
    } else if n == 5 && bytes[i + 0] == 82 && bytes[i + 1] == 105 && bytes[i + 2] == 103 && bytes[i + 3] == 104 && bytes[i + 4] == 116 {
        proof {
            assert(t =~= seq![82u8, 105u8, 103u8, 104u8, 116u8]);
        }
        Some(KeyCode::Right)
    } else if n == 5 && bytes[i + 0] == 83 && bytes[i + 1] == 112 && bytes[i + 2] == 97 && bytes[i + 3] == 99 && bytes[i + 4] == 101 {
        proof {
            assert(t =~= seq![83u8, 112u8, 97u8, 99u8, 101u8]);
        }
        Some(KeyCode::Space)
    } else if n == 6 && bytes[i + 0] == 69 && bytes[i + 1] == 115 && bytes[i + 2] == 99 && bytes[i + 3] == 97 && bytes[i + 4] == 112 && bytes[i + 5] == 101 {
        proof {
            assert(t =~= seq![69u8, 115u8, 99u8, 97u8, 112u8, 101u8]);
        }
        Some(KeyCode::Escape)
    } else if n == 6 && bytes[i + 0] == 82 && bytes[i + 1] == 101 && bytes[i + 2] == 116 && bytes[i + 3] == 117 && bytes[i + 4] == 114 && bytes[i + 5] == 110 {
        proof {
            assert(t =~= seq![82u8, 101u8, 116u8, 117u8, 114u8, 110u8]);
        }
        Some(KeyCode::Return)
    } else if n == 3 && bytes[i + 0] == 84 && bytes[i + 1] == 97 && bytes[i + 2] == 98 {
        proof {
            assert(t =~= seq![84u8, 97u8, 98u8]);
        }
        Some(KeyCode::Tab)
    } else {
        proof {
            assert(t.len() == n);
        }
        None
    }
}

/// Reads one key identifier token at position `i`, exactly as
/// [`parse_key_at`] states it.
fn parse_key_exec(bytes: &Vec<u8>, i: usize) -> (r: Option<(KeyCode, usize)>)
    requires
        i <= bytes@.len(),
    ensures
        match r {
            Some(p) => parse_key_at(bytes@, i as int) == Some((p.0, p.1 as int)) && i <= p.1 && p.1
                <= bytes@.len(),
            None => parse_key_at(bytes@, i as int) is None,
        },
{
    let mut end: usize = i;
    while end < bytes.len() && (65 <= bytes[end] && bytes[end] <= 90 || 97 <= bytes[end]
        && bytes[end] <= 122)
        invariant
            i <= end <= bytes@.len(),
            alpha_end(bytes@, i as int) == alpha_end(bytes@, end as int),
        decreases bytes@.len() - end,
    {
        end = end + 1;
    }
    proof {
        assert(alpha_end(bytes@, end as int) == end as int);
    }
    match key_from_token(bytes, i, end) {
        Some(k) => Some((k, end)),
        None => None,
    }
}

/// Decodes canonical file bytes back into a binding configuration, exactly
/// as [`spec_decode`] states it: `None` for anything but the canonical form.
pub fn decode_key_binds(bytes: &Vec<u8>) -> (r: Option<KeyBinds>)
    ensures
        r == spec_decode(bytes@),
{
    let s0 = seg0_bytes();
    let i0 = match match_seg_exec(bytes, 0, &s0) {
        Some(j) => j,
        None => {
            return None;
        },
    };
    let p1 = match parse_key_exec(bytes, i0) {
        Some(p) => p,
        None => {
            return None;
        },
    };
    let s1 = seg1_bytes();
    let i1 = match match_seg_exec(bytes, p1.1, &s1) {
        Some(j) => j,
        None => {
            return None;
        },
    };
    let p2 = match parse_key_exec(bytes, i1) {
        Some(p) => p,
        None => {
            return None;
        },
    };
    let s2 = seg2_bytes();
    let i2 = match match_seg_exec(bytes, p2.1, &s2) {
        Some(j) => j,
        None => {
            return None;
        },
    };
    let p3 = match parse_key_exec(bytes, i2) {
        Some(p) => p,
        None => {
            return None;
        },
    };
    let s3 = seg3_bytes();
    let i3 = match match_seg_exec(bytes, p3.1, &s3) {
        Some(j) => j,
        None => {
            return None;
        },
    };
    let p4 = match parse_key_exec(bytes, i3) {
        Some(p) => p,
        None => {
            return None;
        },
    };
    let s4 = seg4_bytes();
    let i4 = match match_seg_exec(bytes, p4.1, &s4) {
        Some(j) => j,
        None => {
            return None;
        },
    };
    let p5 = match parse_key_exec(bytes, i4) {
        Some(p) => p,
        None => {
            return None;
        },
    };
    let s5 = seg5_bytes();
    let end = match match_seg_exec(bytes, p5.1, &s5) {
        Some(j) => j,
        None => {
            return None;
        },
    };
    if end == bytes.len() {
        Some(
            KeyBinds {
                move_forward: p1.0,
                move_left: p2.0,
                move_backward: p3.0,
                move_right: p4.0,
                interact: p5.0,
            },
        )
    } else {
        None
    }
}

/// Where `n` letters starting at `i` are followed by a non-letter (or the
/// end of the input), the letter run starting at `i` ends exactly at `i + n`.
proof fn lemma_alpha_end_run(s: Seq<u8>, i: int, n: int)
    requires
        0 <= i,
        0 <= n,
        i + n <= s.len(),
        forall|t: int| 0 <= t < n ==> is_alpha(#[trigger] s[i + t]),
        i + n == s.len() || !is_alpha(s[i + n]),
    ensures
        alpha_end(s, i) == i + n,
    decreases n,
{
    if n == 0 {
        assert(alpha_end(s, i) == i);
    } else {
        assert(is_alpha(s[i + 0]));
        assert forall|t: int| 0 <= t < n - 1 implies is_alpha(#[trigger] s[(i + 1) + t]) by {
            assert(is_alpha(s[i + (t + 1)]));
            assert((i + 1) + t == i + (t + 1));
        }
        lemma_alpha_end_run(s, i + 1, n - 1);
    }
}

/// Every key identifier is a nonempty run of letters.
proof fn lemma_key_name_alpha(k: KeyCode)
    ensures
        key_name(k).len() >= 1,
        forall|j: int| 0 <= j < key_name(k).len() ==> is_alpha(#[trigger] key_name(k)[j]),
{
    match k {
        KeyCode::A => {
            assert(is_alpha(key_name(k)[0]));
        },
        KeyCode::B => {
            assert(is_alpha(key_name(k)[0]));
        },
        KeyCode::C => {
            assert(is_alpha(key_name(k)[0]));
        },
        KeyCode::D => {
            assert(is_alpha(key_name(k)[0]));
        },
        KeyCode::E => {
            assert(is_alpha(key_name(k)[0]));
        },
        KeyCode::F => {
            assert(is_alpha(key_name(k)[0]));
        },
        KeyCode::G => {
            assert(is_alpha(key_name(k)[0]));
        },
        KeyCode::H => {
            assert(is_alpha(key_name(k)[0]));
        },
        KeyCode::I => {
            assert(is_alpha(key_name(k)[0]));
        },
        KeyCode::J => {
            assert(is_alpha(key_name(k)[0]));
        },
        KeyCode::K => {
            assert(is_alpha(key_name(k)[0]));
        },
        KeyCode::L => {
            assert(is_alpha(key_name(k)[0]));
        },
        KeyCode::M => {
            assert(is_alpha(key_name(k)[0]));
        },
        KeyCode::N => {
            assert(is_alpha(key_name(k)[0]));
        },
        KeyCode::O => {
            assert(is_alpha(key_name(k)[0]));
        },
        KeyCode::P => {
            assert(is_alpha(key_name(k)[0]));
        },
        KeyCode::Q => {
            assert(is_alpha(key_name(k)[0]));
        },
        KeyCode::R => {
            assert(is_alpha(key_name(k)[0]));
        },
        KeyCode::S => {
            assert(is_alpha(key_name(k)[0]));
        },
        KeyCode::T => {
            assert(is_alpha(key_name(k)[0]));
        },
        KeyCode::U => {
            assert(is_alpha(key_name(k)[0]));
        },
        KeyCode::V => {
            assert(is_alpha(key_name(k)[0]));
        },
        KeyCode::W => {
            assert(is_alpha(key_name(k)[0]));
        },
        KeyCode::X => {
            assert(is_alpha(key_name(k)[0]));
        },
        KeyCode::Y => {
            assert(is_alpha(key_name(k)[0]));
        },
        KeyCode::Z => {
            assert(is_alpha(key_name(k)[0]));
        },
        KeyCode::Up => {
            assert(is_alpha(key_name(k)[0]));
            assert(is_alpha(key_name(k)[1]));
        },
        KeyCode::Down => {
            assert(is_alpha(key_name(k)[0]));
            assert(is_alpha(key_name(k)[1]));
            assert(is_alpha(key_name(k)[2]));
            assert(is_alpha(key_name(k)[3]));
        },
        KeyCode::Left => {
            assert(is_alpha(key_name(k)[0]));
            assert(is_alpha(key_name(k)[1]));
            assert(is_alpha(key_name(k)[2]));
            assert(is_alpha(key_name(k)[3]));
        },
        KeyCode::Right => {
            assert(is_alpha(key_name(k)[0]));
            assert(is_alpha(key_name(k)[1]));
            assert(is_alpha(key_name(k)[2]));
            assert(is_alpha(key_name(k)[3]));
            assert(is_alpha(key_name(k)[4]));
        },
        KeyCode::Space => {
            assert(is_alpha(key_name(k)[0]));
            assert(is_alpha(key_name(k)[1]));
            assert(is_alpha(key_name(k)[2]));
            assert(is_alpha(key_name(k)[3]));
            assert(is_alpha(key_name(k)[4]));
        },
        KeyCode::Escape => {
            assert(is_alpha(key_name(k)[0]));
            assert(is_alpha(key_name(k)[1]));
            assert(is_alpha(key_name(k)[2]));
            assert(is_alpha(key_name(k)[3]));
            assert(is_alpha(key_name(k)[4]));
            assert(is_alpha(key_name(k)[5]));
        },
        KeyCode::Return => {
            assert(is_alpha(key_name(k)[0]));
            assert(is_alpha(key_name(k)[1]));
            assert(is_alpha(key_name(k)[2]));
            assert(is_alpha(key_name(k)[3]));
            assert(is_alpha(key_name(k)[4]));
            assert(is_alpha(key_name(k)[5]));
        },
        KeyCode::Tab => {
            assert(is_alpha(key_name(k)[0]));
            assert(is_alpha(key_name(k)[1]));
            assert(is_alpha(key_name(k)[2]));
        },
    }
}

/// Reading back a key's identifier names that key.
proof fn lemma_key_name_of(k: KeyCode)
    ensures
        key_of_name(key_name(k)) == Some(k),
{
    match k {
        KeyCode::A => {
            assert(key_name(k)[0] == 65);
        },
        KeyCode::B => {
            assert(key_name(k)[0] == 66);
        },
        KeyCode::C => {
            assert(key_name(k)[0] == 67);
        },
        KeyCode::D => {
            assert(key_name(k)[0] == 68);
        },
        KeyCode::E => {
            assert(key_name(k)[0] == 69);
        },
        KeyCode::F => {
            assert(key_name(k)[0] == 70);
        },
        KeyCode::G => {
            assert(key_name(k)[0] == 71);
        },
        KeyCode::H => {
            assert(key_name(k)[0] == 72);
        },
        KeyCode::I => {
            assert(key_name(k)[0] == 73);
        },
        KeyCode::J => {
            assert(key_name(k)[0] == 74);
        },
        KeyCode::K => {
            assert(key_name(k)[0] == 75);
        },
        KeyCode::L => {
            assert(key_name(k)[0] == 76);
        },
        KeyCode::M => {
            assert(key_name(k)[0] == 77);
        },
        KeyCode::N => {
            assert(key_name(k)[0] == 78);
        },
        KeyCode::O => {
            assert(key_name(k)[0] == 79);
        },
        KeyCode::P => {
            assert(key_name(k)[0] == 80);
        },
        KeyCode::Q => {
            assert(key_name(k)[0] == 81);
        },
        KeyCode::R => {
            assert(key_name(k)[0] == 82);
        },
        KeyCode::S => {
            assert(key_name(k)[0] == 83);
        },
        KeyCode::T => {
            assert(key_name(k)[0] == 84);
        },
        KeyCode::U => {
            assert(key_name(k)[0] == 85);
        },
        KeyCode::V => {
            assert(key_name(k)[0] == 86);
        },
        KeyCode::W => {
            assert(key_name(k)[0] == 87);
        },
        KeyCode::X => {
            assert(key_name(k)[0] == 88);
        },
        KeyCode::Y => {
            assert(key_name(k)[0] == 89);
        },
        KeyCode::Z => {
            assert(key_name(k)[0] == 90);
        },
        KeyCode::Up => {
            assert(key_name(k)[0] == 85);
        },
        KeyCode::Down => {
            assert(key_name(k)[0] == 68);
        },
        KeyCode::Left => {
            assert(key_name(k)[0] == 76);
        },
        KeyCode::Right => {
            assert(key_name(k)[0] == 82);
        },
        KeyCode::Space => {
            assert(key_name(k)[0] == 83);
        },
        KeyCode::Escape => {
            assert(key_name(k)[0] == 69);
        },
        KeyCode::Return => {
            assert(key_name(k)[0] == 82);
        },
        KeyCode::Tab => {
            assert(key_name(k)[0] == 84);
        },
    }
}

/// Matching `seg` succeeds at `i` where the input carries `seg` there.
proof fn lemma_match_seg_at(s: Seq<u8>, i: int, seg: Seq<u8>)
    requires
        0 <= i,
        i + seg.len() <= s.len(),
        forall|t: int| 0 <= t < seg.len() ==> #[trigger] s[i + t] == seg[t],
    ensures
        match_seg(s, i, seg) == Some(i + seg.len()),
{
    assert forall|t: int| 0 <= t < seg.len() implies s.subrange(i, i + seg.len())[t] == seg[t] by {
        assert(s[i + t] == seg[t]);
    }
    assert(s.subrange(i, i + seg.len()) =~= seg);
}

/// Reading a key succeeds at `i` where the input carries its identifier
/// there, followed by a non-letter.
proof fn lemma_parse_key_at(s: Seq<u8>, i: int, k: KeyCode)
    requires
        0 <= i,
        i + key_name(k).len() <= s.len(),
        forall|t: int| 0 <= t < key_name(k).len() ==> #[trigger] s[i + t] == key_name(k)[t],
        i + key_name(k).len() == s.len() || !is_alpha(s[i + key_name(k).len()]),
    ensures
        parse_key_at(s, i) == Some((k, i + key_name(k).len())),
{
    let n = key_name(k).len() as int;
    lemma_key_name_alpha(k);
    assert(forall|t: int| 0 <= t < n ==> is_alpha(#[trigger] s[i + t]));
    lemma_alpha_end_run(s, i, n);
    assert forall|t: int| 0 <= t < n implies s.subrange(i, i + n)[t] == key_name(k)[t] by {
        assert(s[i + t] == key_name(k)[t]);
    }
    assert(s.subrange(i, i + n) =~= key_name(k));
    lemma_key_name_of(k);
}

/// Offset of piece `idx` inside the canonical encoding: the pieces are the
/// six fixed texts interleaved with the five key identifiers.
spec fn rt_off(kb: KeyBinds, idx: int) -> int {
    if idx <= 0 {
        0
    } else if idx == 1 {
        (seg0().len()) as int
    } else if idx == 2 {
        (seg0().len() + key_name(kb.move_forward).len()) as int
    } else if idx == 3 {
        (seg0().len() + key_name(kb.move_forward).len() + seg1().len()) as int
    } else if idx == 4 {
        (seg0().len() + key_name(kb.move_forward).len() + seg1().len() + key_name(kb.move_left).len()) as int
    } else if idx == 5 {
        (seg0().len() + key_name(kb.move_forward).len() + seg1().len() + key_name(kb.move_left).len() + seg2().len()) as int
    } else if idx == 6 {
        (seg0().len() + key_name(kb.move_forward).len() + seg1().len() + key_name(kb.move_left).len() + seg2().len() + key_name(kb.move_backward).len()) as int
    } else if idx == 7 {
        (seg0().len() + key_name(kb.move_forward).len() + seg1().len() + key_name(kb.move_left).len() + seg2().len() + key_name(kb.move_backward).len() + seg3().len()) as int
    } else if idx == 8 {
        (seg0().len() + key_name(kb.move_forward).len() + seg1().len() + key_name(kb.move_left).len() + seg2().len() + key_name(kb.move_backward).len() + seg3().len() + key_name(kb.move_right).len()) as int
    } else if idx == 9 {
        (seg0().len() + key_name(kb.move_forward).len() + seg1().len() + key_name(kb.move_left).len() + seg2().len() + key_name(kb.move_backward).len() + seg3().len() + key_name(kb.move_right).len() + seg4().len()) as int
    } else if idx == 10 {
        (seg0().len() + key_name(kb.move_forward).len() + seg1().len() + key_name(kb.move_left).len() + seg2().len() + key_name(kb.move_backward).len() + seg3().len() + key_name(kb.move_right).len() + seg4().len() + key_name(kb.interact).len()) as int
    } else {
        (seg0().len() + key_name(kb.move_forward).len() + seg1().len() + key_name(kb.move_left).len() + seg2().len() + key_name(kb.move_backward).len() + seg3().len() + key_name(kb.move_right).len() + seg4().len() + key_name(kb.interact).len() + seg5().len()) as int
    }
}

#[verifier::rlimit(100)]
proof fn lemma_rt_len(kb: KeyBinds)
    ensures
        spec_encode(kb).len() == rt_off(kb, 11),
{
}
#[verifier::rlimit(100)]
proof fn lemma_rt_seg_0(kb: KeyBinds)
    ensures
        match_seg(spec_encode(kb), rt_off(kb, 0), seg0()) == Some(rt_off(kb, 1)),
{
    let s = spec_encode(kb);
    let o = rt_off(kb, 0);
    lemma_rt_len(kb);
    assert forall|t: int| 0 <= t < seg0().len() implies #[trigger] s[o + t] == seg0()[t] by {}
    lemma_match_seg_at(s, o, seg0());
}
#[verifier::rlimit(100)]
proof fn lemma_rt_key_1(kb: KeyBinds)
    ensures
        parse_key_at(spec_encode(kb), rt_off(kb, 1)) == Some(
            (kb.move_forward, rt_off(kb, 2)),
        ),
{
    let s = spec_encode(kb);
    let o = rt_off(kb, 1);
    let n = key_name(kb.move_forward);
    lemma_rt_len(kb);
    assert forall|t: int| 0 <= t < n.len() implies #[trigger] s[o + t] == n[t] by {}
    assert(s[o + n.len()] == 44);
    lemma_parse_key_at(s, o, kb.move_forward);
}
#[verifier::rlimit(100)]
proof fn lemma_rt_seg_2(kb: KeyBinds)
    ensures
        match_seg(spec_encode(kb), rt_off(kb, 2), seg1()) == Some(rt_off(kb, 3)),
{
    let s = spec_encode(kb);
    let o = rt_off(kb, 2);
    lemma_rt_len(kb);
    assert forall|t: int| 0 <= t < seg1().len() implies #[trigger] s[o + t] == seg1()[t] by {}
    lemma_match_seg_at(s, o, seg1());
}
#[verifier::rlimit(100)]
proof fn lemma_rt_key_3(kb: KeyBinds)
    ensures
        parse_key_at(spec_encode(kb), rt_off(kb, 3)) == Some(
            (kb.move_left, rt_off(kb, 4)),
        ),
{
    let s = spec_encode(kb);
    let o = rt_off(kb, 3);
    let n = key_name(kb.move_left);
    lemma_rt_len(kb);
    assert forall|t: int| 0 <= t < n.len() implies #[trigger] s[o + t] == n[t] by {}
    assert(s[o + n.len()] == 44);
    lemma_parse_key_at(s, o, kb.move_left);
}
#[verifier::rlimit(100)]
proof fn lemma_rt_seg_4(kb: KeyBinds)
    ensures
        match_seg(spec_encode(kb), rt_off(kb, 4), seg2()) == Some(rt_off(kb, 5)),
{
    let s = spec_encode(kb);
    let o = rt_off(kb, 4);
    lemma_rt_len(kb);
    assert forall|t: int| 0 <= t < seg2().len() implies #[trigger] s[o + t] == seg2()[t] by {}
    lemma_match_seg_at(s, o, seg2());
}
#[verifier::rlimit(100)]
proof fn lemma_rt_key_5(kb: KeyBinds)
    ensures
        parse_key_at(spec_encode(kb), rt_off(kb, 5)) == Some(
            (kb.move_backward, rt_off(kb, 6)),
        ),
{
    let s = spec_encode(kb);
    let o = rt_off(kb, 5);
    let n = key_name(kb.move_backward);
    lemma_rt_len(kb);
    assert forall|t: int| 0 <= t < n.len() implies #[trigger] s[o + t] == n[t] by {}
    assert(s[o + n.len()] == 44);
    lemma_parse_key_at(s, o, kb.move_backward);
}
#[verifier::rlimit(100)]
proof fn lemma_rt_seg_6(kb: KeyBinds)
    ensures
        match_seg(spec_encode(kb), rt_off(kb, 6), seg3()) == Some(rt_off(kb, 7)),
{
    let s = spec_encode(kb);
    let o = rt_off(kb, 6);
    lemma_rt_len(kb);
    assert forall|t: int| 0 <= t < seg3().len() implies #[trigger] s[o + t] == seg3()[t] by {}
    lemma_match_seg_at(s, o, seg3());
}
#[verifier::rlimit(100)]
proof fn lemma_rt_key_7(kb: KeyBinds)
    ensures
        parse_key_at(spec_encode(kb), rt_off(kb, 7)) == Some(
            (kb.move_right, rt_off(kb, 8)),
        ),
{
    let s = spec_encode(kb);
    let o = rt_off(kb, 7);
    let n = key_name(kb.move_right);
    lemma_rt_len(kb);
    assert forall|t: int| 0 <= t < n.len() implies #[trigger] s[o + t] == n[t] by {}
    assert(s[o + n.len()] == 44);
    lemma_parse_key_at(s, o, kb.move_right);
}
#[verifier::rlimit(100)]
proof fn lemma_rt_seg_8(kb: KeyBinds)
    ensures
        match_seg(spec_encode(kb), rt_off(kb, 8), seg4()) == Some(rt_off(kb, 9)),
{
    let s = spec_encode(kb);
    let o = rt_off(kb, 8);
    lemma_rt_len(kb);
    assert forall|t: int| 0 <= t < seg4().len() implies #[trigger] s[o + t] == seg4()[t] by {}
    lemma_match_seg_at(s, o, seg4());
}
#[verifier::rlimit(100)]
proof fn lemma_rt_key_9(kb: KeyBinds)
    ensures
        parse_key_at(spec_encode(kb), rt_off(kb, 9)) == Some(
            (kb.interact, rt_off(kb, 10)),
        ),
{
    let s = spec_encode(kb);
    let o = rt_off(kb, 9);
    let n = key_name(kb.interact);
    lemma_rt_len(kb);
    assert forall|t: int| 0 <= t < n.len() implies #[trigger] s[o + t] == n[t] by {}
    assert(s[o + n.len()] == 44);
    lemma_parse_key_at(s, o, kb.interact);
}
#[verifier::rlimit(100)]
proof fn lemma_rt_seg_10(kb: KeyBinds)
    ensures
        match_seg(spec_encode(kb), rt_off(kb, 10), seg5()) == Some(rt_off(kb, 11)),
{
    let s = spec_encode(kb);
    let o = rt_off(kb, 10);
    lemma_rt_len(kb);
    assert forall|t: int| 0 <= t < seg5().len() implies #[trigger] s[o + t] == seg5()[t] by {}
    lemma_match_seg_at(s, o, seg5());
}
/// Law: decoding an encoded binding configuration gives it back unchanged,
/// whatever the five bindings are. Together with the exact contracts of
/// [`encode_key_binds`] and [`decode_key_binds`], saving a configuration and
/// reloading the written bytes yields the identical configuration.
pub proof fn lemma_key_binds_round_trip(kb: KeyBinds)
    ensures
        spec_decode(spec_encode(kb)) == Some(kb),
{
    lemma_rt_len(kb);
    lemma_rt_seg_0(kb);
    lemma_rt_key_1(kb);
    lemma_rt_seg_2(kb);
    lemma_rt_key_3(kb);
    lemma_rt_seg_4(kb);
    lemma_rt_key_5(kb);
    lemma_rt_seg_6(kb);
    lemma_rt_key_7(kb);
    lemma_rt_seg_8(kb);
    lemma_rt_key_9(kb);
    lemma_rt_seg_10(kb);
}

} // verus!
