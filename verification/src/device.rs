//! Device profiles: the calibration that belongs to each product.

use vstd::prelude::*;
use vstd::slice::slice_subrange;
use vstd::string::StringSliceAdditionalSpecFns;
use vstd::utf8::encode_scalar;

verus! {

broadcast use vstd::string::is_ascii_spec_bytes;

#[derive(Clone, Copy, Debug, PartialEq, Eq, Hash, Structural)]
pub enum Model {
    Touch,
    Glo,
    Mini,
    AuraHD,
    Aura,
    AuraH2O,
    GloHD,
    Touch2,
    AuraONE,
    AuraEdition2,
}

/// The protocol that the touch screen speaks.
#[derive(Clone, Copy, Debug, PartialEq, Eq, Hash, Structural)]
pub enum TouchProto {
    Single,
    Multi,
}

#[derive(Clone, Copy, Debug, PartialEq, Eq, Hash, Structural)]
pub struct Device {
    pub model: Model,
    pub proto: TouchProto,
    pub swap_xy: bool,
    pub dpi: u16,
}

/// The profile of a device that is not known.
pub open spec fn default_device() -> Device {
    Device { model: Model::Touch, proto: TouchProto::Single, swap_xy: false, dpi: 167 }
}

impl Default for Device {
    fn default() -> (d: Device)
        ensures
            d == default_device(),
    {
        Device { model: Model::Touch, proto: TouchProto::Single, swap_xy: false, dpi: 167 }
    }
}

/// Whether `b` is a white-space character of one byte: the space, or one
/// of the five control characters from tab to carriage return.
pub open spec fn is_space(b: u8) -> bool {
    b == 0x20 || 0x09 <= b <= 0x0d
}

/// Whether the two bytes are the UTF-8 form of a white-space character:
/// of the next-line control U+0085 or of the no-break space U+00A0.
pub open spec fn is_space_pair(a: u8, b: u8) -> bool {
    a == 0xc2 && (b == 0x85 || b == 0xa0)
}

/// Whether the three bytes are the UTF-8 form of a white-space character:
/// of U+1680, of one of U+2000 to U+200A, of U+2028, U+2029, U+202F or
/// U+205F, or of U+3000.
pub open spec fn is_space_triple(a: u8, b: u8, c: u8) -> bool {
    ||| a == 0xe1 && b == 0x9a && c == 0x80
    ||| a == 0xe2 && b == 0x80 && (0x80 <= c <= 0x8a || c == 0xa8 || c == 0xa9 || c == 0xaf)
    ||| a == 0xe2 && b == 0x81 && c == 0x9f
    ||| a == 0xe3 && b == 0x80 && c == 0x80
}

/// The number of bytes of the white-space character that ends `bytes` in
/// UTF-8, or 0 where none does.
pub open spec fn space_at_end(bytes: Seq<u8>) -> int {
    let n = bytes.len() as int;
    if n >= 1 && is_space(bytes[n - 1]) {
        1
    } else if n >= 2 && is_space_pair(bytes[n - 2], bytes[n - 1]) {
        2
    } else if n >= 3 && is_space_triple(bytes[n - 3], bytes[n - 2], bytes[n - 1]) {
        3
    } else {
        0
    }
}

/// The characters that the bytes of a one-byte encoding stand for.
pub open spec fn text(bytes: Seq<u8>) -> Seq<char> {
    Seq::new(bytes.len(), |i: int| bytes[i] as char)
}

/// Whether `c` is a white-space character of Unicode.
pub open spec fn is_white_space(c: char) -> bool {
    let v = c as u32;
    ||| 0x09 <= v <= 0x0d
    ||| v == 0x20
    ||| v == 0x85
    ||| v == 0xa0
    ||| v == 0x1680
    ||| 0x2000 <= v <= 0x200a
    ||| v == 0x2028
    ||| v == 0x2029
    ||| v == 0x202f
    ||| v == 0x205f
    ||| v == 0x3000
}

/// The bytes that count as white space are the UTF-8 forms of the
/// white-space characters of Unicode, and of no other character: the form
/// of a character is white space from end to end exactly if the character
/// is white space.
pub proof fn lemma_white_space_in_utf8(c: char)
    ensures
        is_white_space(c) <==> space_at_end(encode_scalar(c as u32)) == encode_scalar(
            c as u32,
        ).len(),
{
    let v = c as u32;
    vstd::utf8::char_is_scalar(c);
    if v <= 0x7f {
        assert((v & 0x7f) as u8 == v) by (bit_vector)
            requires
                v <= 0x7f,
        ;
    } else if v <= 0x7ff {
        let a = 0xc0u8 | ((v >> 6) & 0x1f) as u8;
        let b = 0x80u8 | (v & 0x3f) as u8;
        assert({
            &&& b >= 0x80
            &&& (a == 0xc2 && b == 0x85) <==> v == 0x85
            &&& (a == 0xc2 && b == 0xa0) <==> v == 0xa0
        }) by (bit_vector)
            requires
                0x80 <= v <= 0x7ff,
                a == 0xc0u8 | ((v >> 6) & 0x1f) as u8,
                b == 0x80u8 | (v & 0x3f) as u8,
        ;
    } else if v <= 0xffff {
        let a = 0xe0u8 | ((v >> 12) & 0x0f) as u8;
        let b = 0x80u8 | ((v >> 6) & 0x3f) as u8;
        let d = 0x80u8 | (v & 0x3f) as u8;
        assert({
            &&& d >= 0x80
            &&& b != 0xc2
            &&& (a == 0xe1 && b == 0x9a && d == 0x80) <==> v == 0x1680
            &&& (a == 0xe2 && b == 0x80 && 0x80 <= d && d <= 0x8a) <==> (0x2000 <= v && v
                <= 0x200a)
            &&& (a == 0xe2 && b == 0x80 && d == 0xa8) <==> v == 0x2028
            &&& (a == 0xe2 && b == 0x80 && d == 0xa9) <==> v == 0x2029
            &&& (a == 0xe2 && b == 0x80 && d == 0xaf) <==> v == 0x202f
            &&& (a == 0xe2 && b == 0x81 && d == 0x9f) <==> v == 0x205f
            &&& (a == 0xe3 && b == 0x80 && d == 0x80) <==> v == 0x3000
        }) by (bit_vector)
            requires
                0x800 <= v <= 0xffff,
                a == 0xe0u8 | ((v >> 12) & 0x0f) as u8,
                b == 0x80u8 | ((v >> 6) & 0x3f) as u8,
                d == 0x80u8 | (v & 0x3f) as u8,
        ;
    } else {
        let a = 0x80u8 | ((v >> 12) & 0x3f) as u8;
        let b = 0x80u8 | ((v >> 6) & 0x3f) as u8;
        let d = 0x80u8 | (v & 0x3f) as u8;
        assert(d >= 0x80 && 0x80 <= b && b <= 0xbf && 0x80 <= a && a <= 0xbf) by (bit_vector)
            requires
                a == 0x80u8 | ((v >> 12) & 0x3f) as u8,
                b == 0x80u8 | ((v >> 6) & 0x3f) as u8,
                d == 0x80u8 | (v & 0x3f) as u8,
        ;
    }
}

/// The length of the text in a buffer that a zero byte terminates: the
/// place of the first zero byte. A buffer without one holds no text.
pub open spec fn text_len(buf: Seq<u8>) -> int {
    if exists|i: int| 0 <= i < buf.len() && buf[i] == 0 {
        choose|i: int| 0 <= i < buf.len() && buf[i] == 0 && forall|j: int| 0 <= j < i ==> buf[j] != 0
    } else {
        0
    }
}

/// The length of `bytes` without the white-space characters at its end.
pub open spec fn trimmed_len(bytes: Seq<u8>) -> int
    decreases bytes.len(),
{
    if space_at_end(bytes) > 0 {
        trimmed_len(bytes.take(bytes.len() - space_at_end(bytes)))
    } else {
        bytes.len() as int
    }
}

/// The product name in the line that a probe printed into `buf`: the text
/// of the buffer without the white space and the line break at its end.
/// White space is every character that Unicode counts as such, in UTF-8.
pub open spec fn product_name(buf: Seq<u8>) -> Seq<u8> {
    let line = buf.take(text_len(buf));
    line.take(trimmed_len(line))
}

/// The name that stands for a probe that printed nothing.
pub open spec fn default_product() -> Seq<char> {
    "trilogy"@
}

impl Device {
    /// The profile of the product called `name`. A name that is not known
    /// has the default profile.
    pub open spec fn profile(name: Seq<char>) -> Device {
        if name == "kraken"@ {
            Device { model: Model::Glo, proto: TouchProto::Single, swap_xy: true, dpi: 212 }
        } else if name == "pixie"@ {
            Device { model: Model::Mini, proto: TouchProto::Single, swap_xy: true, dpi: 200 }
        } else if name == "dragon"@ {
            Device { model: Model::AuraHD, proto: TouchProto::Single, swap_xy: true, dpi: 265 }
        } else if name == "phoenix"@ {
            Device { model: Model::Aura, proto: TouchProto::Multi, swap_xy: true, dpi: 212 }
        } else if name == "dahlia"@ {
            Device { model: Model::AuraH2O, proto: TouchProto::Multi, swap_xy: true, dpi: 265 }
        } else if name == "alyssum"@ {
            Device { model: Model::GloHD, proto: TouchProto::Multi, swap_xy: true, dpi: 300 }
        } else if name == "pika"@ {
            Device { model: Model::Touch2, proto: TouchProto::Multi, swap_xy: true, dpi: 167 }
        } else if name == "daylight"@ {
            Device { model: Model::AuraONE, proto: TouchProto::Multi, swap_xy: true, dpi: 300 }
        } else if name == "star"@ {
            Device {
                model: Model::AuraEdition2,
                proto: TouchProto::Multi,
                swap_xy: true,
                dpi: 212,
            }
        } else {
            default_device()
        }
    }

    /// The profile that a probe's outcome selects: that of the product
    /// named in the line it printed, or that of the default product where
    /// it printed none.
    pub open spec fn selected(probe: Option<Seq<u8>>) -> Device {
        match probe {
            Some(buf) => Device::profile(text(product_name(buf))),
            None => Device::profile(default_product()),
        }
    }
}

/// Whether `bytes` spell the ASCII text `name`.
fn spells(bytes: &[u8], name: &str) -> (r: bool)
    requires
        name.is_ascii(),
    ensures
        r == (text(bytes@) == name@),
{
    let wanted = name.as_bytes();
    if bytes.len() != wanted.len() {
        assert(text(bytes@).len() != name@.len());
        return false;
    }
    let mut i: usize = 0;
    while i < bytes.len()
        invariant
            i <= bytes.len(),
            bytes.len() == wanted.len(),
            name.is_ascii(),
            wanted@ == name.spec_bytes(),
            forall|j: int| 0 <= j < i ==> text(bytes@)[j] == name@[j],
        decreases bytes.len() - i,
    {
        if bytes[i] != wanted[i] {
            assert(text(bytes@)[i as int] != name@[i as int]);
            return false;
        }
        i = i + 1;
    }
    assert(text(bytes@) =~= name@);
    true
}

/// Every product name is ASCII text.
proof fn lemma_names_are_ascii()
    ensures
        "kraken".is_ascii(),
        "pixie".is_ascii(),
        "dragon".is_ascii(),
        "phoenix".is_ascii(),
        "dahlia".is_ascii(),
        "alyssum".is_ascii(),
        "pika".is_ascii(),
        "daylight".is_ascii(),
        "star".is_ascii(),
{
    reveal_strlit("kraken");
    reveal_strlit("pixie");
    reveal_strlit("dragon");
    reveal_strlit("phoenix");
    reveal_strlit("dahlia");
    reveal_strlit("alyssum");
    reveal_strlit("pika");
    reveal_strlit("daylight");
    reveal_strlit("star");
}

/// The default product is not among the known ones, so it has the default
/// profile.
pub proof fn lemma_default_product_is_unknown()
    ensures
        Device::profile(default_product()) == default_device(),
{
    reveal_strlit("trilogy");
    reveal_strlit("kraken");
    reveal_strlit("pixie");
    reveal_strlit("dragon");
    reveal_strlit("phoenix");
    reveal_strlit("dahlia");
    reveal_strlit("alyssum");
    reveal_strlit("pika");
    reveal_strlit("daylight");
    reveal_strlit("star");
    let t = "trilogy"@;
    assert(t.len() == 7);
    assert(t[0] == 't');
    assert("phoenix"@[0] == 'p');
    assert("alyssum"@[0] == 'a');
}

/// The place of the first zero byte of `buf`, or 0 where it has none.
fn text_end(buf: &[u8]) -> (n: usize)
    ensures
        n == text_len(buf@),
        n <= buf@.len(),
{
    let mut i: usize = 0;
    while i < buf.len()
        invariant
            i <= buf.len(),
            forall|j: int| 0 <= j < i ==> buf@[j] != 0,
        decreases buf.len() - i,
    {
        if buf[i] == 0 {
            proof {
                let found = i as int;
                assert(0 <= found < buf@.len() && buf@[found] == 0);
                let chosen = text_len(buf@);
                assert(0 <= chosen < buf@.len() && buf@[chosen] == 0 && forall|j: int|
                    0 <= j < chosen ==> buf@[j] != 0);
                assert(chosen == found) by {
                    if chosen < found {
                        assert(buf@[chosen] != 0);
                    }
                    if found < chosen {
                        assert(buf@[found] != 0);
                    }
                }
            }
            return i;
        }
        i = i + 1;
    }
    0
}

/// The number of bytes of the white-space character that ends the first
/// `n` bytes of `buf`, or 0 where none does.
fn space_width(buf: &[u8], n: usize) -> (w: usize)
    requires
        n <= buf@.len(),
    ensures
        w == space_at_end(buf@.take(n as int)),
        w <= n,
{
    if n >= 1 {
        let c: u8 = buf[n - 1];
        if c == 0x20 || (0x09 <= c && c <= 0x0d) {
            return 1;
        }
        if n >= 2 {
            let b: u8 = buf[n - 2];
            if b == 0xc2 && (c == 0x85 || c == 0xa0) {
                return 2;
            }
            if n >= 3 {
                let a: u8 = buf[n - 3];
                if (a == 0xe1 && b == 0x9a && c == 0x80) || (a == 0xe2 && b == 0x80 && ((0x80 <= c
                    && c <= 0x8a) || c == 0xa8 || c == 0xa9 || c == 0xaf)) || (a == 0xe2 && b
                    == 0x81 && c == 0x9f) || (a == 0xe3 && b == 0x80 && c == 0x80) {
                    return 3;
                }
            }
        }
    }
    0
}

/// The length of the first `len` bytes of `buf` without the white-space
/// characters at their end.
fn trimmed_end(buf: &[u8], len: usize) -> (n: usize)
    requires
        len <= buf@.len(),
    ensures
        n == trimmed_len(buf@.take(len as int)),
        n <= len,
{
    let mut n: usize = len;
    let mut w: usize = space_width(buf, n);
    while w > 0
        invariant
            n <= len <= buf@.len(),
            w <= n,
            w == space_at_end(buf@.take(n as int)),
            trimmed_len(buf@.take(len as int)) == trimmed_len(buf@.take(n as int)),
        decreases n,
    {
        proof {
            assert(buf@.take(n as int).take(n - w) == buf@.take(n - w));
        }
        n = n - w;
        w = space_width(buf, n);
    }
    n
}

/// The product name in the line that a probe printed into `buf`.
pub fn product_of(buf: &[u8]) -> (name: &[u8])
    ensures
        name@ == product_name(buf@),
{
    let end = text_end(buf);
    let n = trimmed_end(buf, end);
    proof {
        assert(buf@.take(end as int).take(n as int) == buf@.subrange(0, n as int));
    }
    slice_subrange(buf, 0, n)
}

impl Device {
    /// The profile of the product whose name `product` spells.
    pub fn for_product(product: &[u8]) -> (d: Device)
        ensures
            d == Device::profile(text(product@)),
    {
        proof {
            lemma_names_are_ascii();
        }
        if spells(product, "kraken") {
            Device { model: Model::Glo, proto: TouchProto::Single, swap_xy: true, dpi: 212 }
        } else if spells(product, "pixie") {
            Device { model: Model::Mini, proto: TouchProto::Single, swap_xy: true, dpi: 200 }
        } else if spells(product, "dragon") {
            Device { model: Model::AuraHD, proto: TouchProto::Single, swap_xy: true, dpi: 265 }
        } else if spells(product, "phoenix") {
            Device { model: Model::Aura, proto: TouchProto::Multi, swap_xy: true, dpi: 212 }
        } else if spells(product, "dahlia") {
            Device { model: Model::AuraH2O, proto: TouchProto::Multi, swap_xy: true, dpi: 265 }
        } else if spells(product, "alyssum") {
            Device { model: Model::GloHD, proto: TouchProto::Multi, swap_xy: true, dpi: 300 }
        } else if spells(product, "pika") {
            Device { model: Model::Touch2, proto: TouchProto::Multi, swap_xy: true, dpi: 167 }
        } else if spells(product, "daylight") {
            Device { model: Model::AuraONE, proto: TouchProto::Multi, swap_xy: true, dpi: 300 }
        } else if spells(product, "star") {
            Device {
                model: Model::AuraEdition2,
                proto: TouchProto::Multi,
                swap_xy: true,
                dpi: 212,
            }
        } else {
            Device::default()
        }
    }

    /// The profile of the device at hand, from the outcome of its probe:
    /// the buffer that holds the line the probe printed, or `None` where
    /// the probe could not be run or printed nothing.
    pub fn current(probe: Option<&[u8]>) -> (d: Device)
        ensures
            d == Device::selected(
                match probe {
                    Some(buf) => Some(buf@),
                    None => None,
                },
            ),
    {
        match probe {
            Some(buf) => Device::for_product(product_of(buf)),
            None => {
                proof {
                    lemma_default_product_is_unknown();
                }
                Device::default()
            },
        }
    }
}

} // verus!
