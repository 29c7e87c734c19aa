use touch_sketch::device::{product_of, Device, Model, TouchProto};

fn device(model: Model, proto: TouchProto, swap_xy: bool, dpi: u16) -> Device {
    Device { model, proto, swap_xy, dpi }
}

#[test]
fn default_profile_is_single_touch_without_swap() {
    let d = Device::default();
    assert_eq!(d, device(Model::Touch, TouchProto::Single, false, 167));
}

#[test]
fn every_known_product_has_its_profile() {
    assert_eq!(Device::for_product(b"kraken"), device(Model::Glo, TouchProto::Single, true, 212));
    assert_eq!(Device::for_product(b"pixie"), device(Model::Mini, TouchProto::Single, true, 200));
    assert_eq!(Device::for_product(b"dragon"), device(Model::AuraHD, TouchProto::Single, true, 265));
    assert_eq!(Device::for_product(b"phoenix"), device(Model::Aura, TouchProto::Multi, true, 212));
    assert_eq!(Device::for_product(b"dahlia"), device(Model::AuraH2O, TouchProto::Multi, true, 265));
    assert_eq!(Device::for_product(b"alyssum"), device(Model::GloHD, TouchProto::Multi, true, 300));
    assert_eq!(Device::for_product(b"pika"), device(Model::Touch2, TouchProto::Multi, true, 167));
    assert_eq!(Device::for_product(b"daylight"), device(Model::AuraONE, TouchProto::Multi, true, 300));
    assert_eq!(
        Device::for_product(b"star"),
        device(Model::AuraEdition2, TouchProto::Multi, true, 212)
    );
}

#[test]
fn unknown_products_fall_back_to_the_default() {
    assert_eq!(Device::for_product(b"trilogy"), Device::default());
    assert_eq!(Device::for_product(b""), Device::default());
    assert_eq!(Device::for_product(b"Kraken"), Device::default());
    assert_eq!(Device::for_product(b"krake"), Device::default());
    assert_eq!(Device::for_product(b"krakens"), Device::default());
    assert_eq!(Device::for_product(b"kraken\n"), Device::default());
    assert_eq!(Device::for_product(&[0xff, 0xfe]), Device::default());
}

#[test]
fn product_of_stops_at_the_first_zero_byte() {
    let mut buf = [0u8; 16];
    buf[..7].copy_from_slice(b"kraken\n");
    assert_eq!(product_of(&buf), b"kraken");
    let two = b"pika\0star\0";
    assert_eq!(product_of(two), b"pika");
}

fn table(name: &str) -> Device {
    match name {
        "kraken" => device(Model::Glo, TouchProto::Single, true, 212),
        "pixie" => device(Model::Mini, TouchProto::Single, true, 200),
        "dragon" => device(Model::AuraHD, TouchProto::Single, true, 265),
        "phoenix" => device(Model::Aura, TouchProto::Multi, true, 212),
        "dahlia" => device(Model::AuraH2O, TouchProto::Multi, true, 265),
        "alyssum" => device(Model::GloHD, TouchProto::Multi, true, 300),
        "pika" => device(Model::Touch2, TouchProto::Multi, true, 167),
        "daylight" => device(Model::AuraONE, TouchProto::Multi, true, 300),
        "star" => device(Model::AuraEdition2, TouchProto::Multi, true, 212),
        _ => device(Model::Touch, TouchProto::Single, false, 167),
    }
}

fn terminated(text: &[u8]) -> Vec<u8> {
    let mut buf = text.to_vec();
    buf.push(0);
    buf
}

#[test]
fn lines_that_differ_in_trailing_white_space_give_one_profile() {
    let touch2 = device(Model::Touch2, TouchProto::Multi, true, 167);
    let lines: [&str; 8] = [
        "pika",
        "pika\n",
        "pika \r\n",
        "pika\u{a0}",
        "pika\u{85}\n",
        "pika\u{2003}\u{3000} \u{1680}\t",
        "pika\u{2028}\u{2029}\u{202f}\u{205f}",
        "pika\u{2000}\u{200a}\u{b}\u{c}",
    ];
    for line in lines {
        assert_eq!(Device::current(Some(&terminated(line.as_bytes()))), touch2, "{:?}", line);
        assert_eq!(product_of(&terminated(line.as_bytes())), b"pika", "{:?}", line);
    }
}

#[test]
fn product_of_trims_exactly_the_white_space_of_unicode() {
    for c in '\u{1}'..=char::MAX {
        let mut line = String::from("x");
        line.push(c);
        let expected = line.trim_end().as_bytes().to_vec();
        let buf = terminated(line.as_bytes());
        let got = product_of(&buf);
        assert_eq!(got, &expected[..], "{:?}", c);
        assert_eq!(got == b"x", c.is_whitespace(), "{:?}", c);
    }
}

#[test]
fn product_of_keeps_what_only_looks_like_white_space() {
    assert_eq!(product_of(b"pika\xc2\0"), b"pika\xc2");
    assert_eq!(product_of(b"pika\xa0\0"), b"pika\xa0");
    assert_eq!(product_of(b"pika\xe2\x80\0"), b"pika\xe2\x80");
    assert_eq!(product_of(b"pika\xe2\x80\x8b\0"), b"pika\xe2\x80\x8b");
    assert_eq!(product_of(b"pika\xc2\x86\0"), b"pika\xc2\x86");
    assert_eq!(product_of(b"pika\xe3\x80\x81\0"), b"pika\xe3\x80\x81");
    assert_eq!(product_of(b"\xc2\xa0pika\0"), b"\xc2\xa0pika");
    assert_eq!(product_of(b"pika\xc2 \xa0\0"), b"pika\xc2 \xa0");
}

#[test]
fn current_agrees_with_lossy_decoding_and_trimming() {
    let alphabet: [&[u8]; 16] = [
        b"pika", b"star", b"p", b"a", b" ", b"\n", b"\t", b"\xc2", b"\xa0", b"\x85", b"\xe2",
        b"\x80", b"\x8a", b"\xe3", b"\xf0", b"\xc2\xa0",
    ];
    let mut state: u64 = 0x2545f4914f6cdd1d;
    for _ in 0..20000 {
        let mut line = Vec::new();
        state ^= state << 13;
        state ^= state >> 7;
        state ^= state << 17;
        let pieces = 1 + (state >> 60) as usize % 5;
        let mut bits = state;
        for _ in 0..pieces {
            line.extend_from_slice(alphabet[(bits & 15) as usize]);
            bits >>= 4;
        }
        let decoded = String::from_utf8_lossy(&line).into_owned();
        let expected = table(decoded.trim_end());
        assert_eq!(Device::current(Some(&terminated(&line))), expected, "{:?}", line);
    }
}

#[test]
fn product_of_trims_trailing_whitespace_only() {
    assert_eq!(product_of(b"star \t\r\n\x0b\x0c\0"), b"star");
    assert_eq!(product_of(b"  star\n\0"), b"  star");
    assert_eq!(product_of(b"a b \0"), b"a b");
    assert_eq!(product_of(b" \n\0"), b"");
    assert_eq!(product_of(b"\0"), b"");
}

#[test]
fn product_of_a_buffer_without_terminator_is_empty() {
    assert_eq!(product_of(b"kraken"), b"");
    assert_eq!(product_of(b""), b"");
}

#[test]
fn current_reads_the_probe_line() {
    let mut buf = [0u8; 16];
    buf[..8].copy_from_slice(b"phoenix\n");
    assert_eq!(Device::current(Some(&buf)), device(Model::Aura, TouchProto::Multi, true, 212));
    assert_eq!(
        Device::current(Some(b"daylight\r\n\0")),
        device(Model::AuraONE, TouchProto::Multi, true, 300)
    );
}

#[test]
fn current_without_probe_output_is_the_default() {
    assert_eq!(Device::current(None), Device::default());
}

#[test]
fn current_with_unreadable_output_is_the_default() {
    assert_eq!(Device::current(Some(&[0u8; 16])), Device::default());
    assert_eq!(Device::current(Some(b"no such product\n\0")), Device::default());
    assert_eq!(Device::current(Some(b"kraken")), Device::default());
    assert_eq!(Device::current(Some(&[0xc3, 0x28, 0x0a, 0x00])), Device::default());
}
