use rtlsdr::sample::{center, data_to_samples, Sample};

fn normalised(c: i16) -> f32 {
    (c + 127) as f32 / 127.0 - 1.0
}

#[test]
fn center_edges() {
    assert_eq!(center(0), -127);
    assert_eq!(center(127), 0);
    assert_eq!(center(255), 128);
    assert_eq!(center(1), -126);
}

#[test]
fn conversion_of_four_bytes() {
    let out = data_to_samples(vec![0, 255, 127, 1]);
    assert_eq!(
        out,
        vec![Sample { re: -127, im: 128 }, Sample { re: 0, im: -126 }]
    );
    let bytes: [u8; 4] = [0, 255, 127, 1];
    let flat: Vec<f32> = out.iter().flat_map(|s| [normalised(s.re), normalised(s.im)]).collect();
    for (b, v) in bytes.iter().zip(flat.iter()) {
        assert_eq!(*v, *b as f32 / 127.0 - 1.0);
    }
    assert_eq!(flat[0], -1.0);
    assert_eq!(flat[2], 0.0);
}

#[test]
fn conversion_of_empty_block() {
    assert_eq!(data_to_samples(Vec::new()), Vec::<Sample>::new());
}

#[test]
fn conversion_keeps_order() {
    let out = data_to_samples(vec![10, 20, 30, 40, 50, 60]);
    assert_eq!(
        out,
        vec![
            Sample { re: -117, im: -107 },
            Sample { re: -97, im: -87 },
            Sample { re: -77, im: -67 },
        ]
    );
}
