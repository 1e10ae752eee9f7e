use gaussian_splatting::gaussian::packed::Gaussian;
use gaussian_splatting::io::ply::{
    classify,
    decode_vertex,
    decode_vertices,
    find_vertex_element,
    key_is,
    key_starts_with,
    parse_index_below,
    parse_ply,
    read_vertex_records,
    sets_attribute,
    Attribute,
    PlyError,
};

fn bits(x: f32) -> u32 {
    x.to_bits()
}

const NAMES: [&str; 17] = [
    "x", "y", "z", "nx", "f_dc_0", "f_dc_1", "f_dc_2", "f_rest_0", "f_rest_15", "f_rest_44",
    "opacity", "scale_0", "scale_1", "scale_2", "rot_0", "rot_1", "rot_3",
];

fn header(format: &str, count: usize) -> String {
    let mut text = String::from("ply\n");
    text.push_str(&format!("format {} 1.0\n", format));
    text.push_str("comment made for a test\n");
    text.push_str(&format!("element vertex {}\n", count));
    for name in NAMES.iter() {
        text.push_str(&format!("property float {}\n", name));
    }
    text.push_str("end_header\n");
    text
}

fn values(seed: f32) -> [f32; 17] {
    let mut out = [0.0f32; 17];
    for (i, v) in out.iter_mut().enumerate() {
        *v = seed + i as f32 * 0.5;
    }
    out
}

fn expected(seed: f32) -> Gaussian {
    let v = values(seed);
    let mut g = Gaussian::default();
    g.position_visibility.position = [bits(v[0]), bits(v[1]), bits(v[2])];
    g.position_visibility.visibility = bits(1.0);
    g.spherical_harmonic.coefficients[0] = bits(v[4]);
    g.spherical_harmonic.coefficients[1] = bits(v[5]);
    g.spherical_harmonic.coefficients[2] = bits(v[6]);
    // index 0: channel 0, first higher term; index 15: channel 1, first
    // higher term; index 44: channel 2, last higher term
    g.spherical_harmonic.coefficients[3] = bits(v[7]);
    g.spherical_harmonic.coefficients[4] = bits(v[8]);
    g.spherical_harmonic.coefficients[47] = bits(v[9]);
    g.scale_opacity.opacity = bits(v[10]);
    g.scale_opacity.scale = [bits(v[11]), bits(v[12]), bits(v[13])];
    g.rotation.rotation = [bits(v[14]), bits(v[15]), 0, bits(v[16])];
    g
}

fn ascii_file(seeds: &[f32]) -> Vec<u8> {
    let mut text = header("ascii", seeds.len());
    for seed in seeds {
        let line: Vec<String> = values(*seed).iter().map(|v| format!("{}", v)).collect();
        text.push_str(&line.join(" "));
        text.push('\n');
    }
    text.into_bytes()
}

fn binary_file(seeds: &[f32], little: bool) -> Vec<u8> {
    let format = if little {
        "binary_little_endian"
    } else {
        "binary_big_endian"
    };
    let mut bytes = header(format, seeds.len()).into_bytes();
    for seed in seeds {
        for v in values(*seed).iter() {
            if little {
                bytes.extend_from_slice(&v.to_le_bytes());
            } else {
                bytes.extend_from_slice(&v.to_be_bytes());
            }
        }
    }
    bytes
}

#[test]
fn parses_an_ascii_file() {
    let cloud = parse_ply(&ascii_file(&[1.0, -3.25, 100.0])).unwrap();
    assert_eq!(cloud, vec![expected(1.0), expected(-3.25), expected(100.0)]);
}

#[test]
fn parses_binary_files() {
    assert_eq!(parse_ply(&binary_file(&[2.0, 4.5], true)).unwrap(), vec![
        expected(2.0),
        expected(4.5),
    ]);
    assert_eq!(parse_ply(&binary_file(&[2.0, 4.5], false)).unwrap(), vec![
        expected(2.0),
        expected(4.5),
    ]);
}

#[test]
fn values_are_copied_bit_for_bit() {
    let cloud = parse_ply(&ascii_file(&[0.1])).unwrap();
    // rotation is stored as given, however long the quaternion is
    assert_eq!(cloud[0].rotation.rotation[0], bits(0.1 + 7.0));
    // scale and opacity are the stored log-scale and logit
    assert_eq!(cloud[0].scale_opacity.opacity, bits(0.1 + 5.0));
    assert_eq!(cloud[0].scale_opacity.scale[0], bits(0.1 + 5.5));
    assert_eq!(cloud[0].position_visibility.visibility, 0x3f80_0000);
}

#[test]
fn sh_interleave() {
    let mut text = String::from("ply\nformat ascii 1.0\nelement vertex 1\n");
    text.push_str("property float f_dc_0\nproperty float f_dc_1\nproperty float f_dc_2\n");
    for i in 0..45 {
        text.push_str(&format!("property float f_rest_{}\n", i));
    }
    text.push_str("end_header\n1.0");
    for _ in 0..47 {
        text.push_str(" 0");
    }
    text.push('\n');
    let cloud = parse_ply(text.as_bytes()).unwrap();
    assert_eq!(cloud.len(), 1);
    let coefficients = cloud[0].spherical_harmonic.coefficients;
    assert_eq!(coefficients[0], bits(1.0));
    for slot in 1..48 {
        assert_eq!(coefficients[slot], bits(0.0));
    }
}

#[test]
fn higher_terms_go_to_rank_times_channels_plus_channel() {
    let mut text = String::from("ply\nformat ascii 1.0\nelement vertex 1\n");
    for i in 0..45 {
        text.push_str(&format!("property float f_rest_{}\n", i));
    }
    text.push_str("end_header\n");
    let line: Vec<String> = (0..45).map(|i| format!("{}", 100 + i)).collect();
    text.push_str(&line.join(" "));
    text.push('\n');
    let coefficients = parse_ply(text.as_bytes()).unwrap()[0].spherical_harmonic.coefficients;
    for channel in 0..3 {
        assert_eq!(coefficients[channel], 0);
        for rank in 1..16 {
            let index = channel * 15 + rank - 1;
            assert_eq!(coefficients[rank * 3 + channel], bits(100.0 + index as f32));
        }
    }
}

#[test]
fn other_elements_and_properties_are_passed_over() {
    let text = "ply\nformat ascii 1.0\nelement vertex 2\nproperty float x\nproperty uchar red\n\
                property double y\nproperty list uchar int ids\nproperty float f_rest_45\n\
                property float f_rest_abc\nelement face 1\nproperty list uchar int vertex_index\n\
                end_header\n1.5 255 2.5 2 7 8 9.0 10.0\n-1.5 0 0 0 3.0 4.0\n3 0 1 2\n";
    let cloud = parse_ply(text.as_bytes()).unwrap();
    let mut first = Gaussian::default();
    first.position_visibility.position[0] = bits(1.5);
    first.position_visibility.visibility = bits(1.0);
    let mut second = first;
    second.position_visibility.position[0] = bits(-1.5);
    assert_eq!(cloud, vec![first, second]);
}

#[test]
fn empty_vertex_element_gives_no_splats() {
    let text = "ply\nformat ascii 1.0\nelement vertex 0\nproperty float x\nend_header\n";
    assert_eq!(parse_ply(text.as_bytes()), Ok(Vec::new()));
}

#[test]
fn malformed_header_is_rejected() {
    assert_eq!(parse_ply(b""), Err(PlyError::MalformedHeader));
    assert_eq!(parse_ply(b"plyx\nformat ascii 1.0\nend_header\n"), Err(PlyError::MalformedHeader));
    assert_eq!(
        parse_ply(b"ply\nelement vertex 1\nproperty float x\nend_header\n1\n"),
        Err(PlyError::MalformedHeader)
    );
    assert_eq!(
        parse_ply(b"ply\nformat ascii 1.0\nproperty float x\nend_header\n"),
        Err(PlyError::MalformedHeader)
    );
}

#[test]
fn missing_vertex_element_is_rejected() {
    let text = "ply\nformat ascii 1.0\nelement face 0\nproperty float x\nend_header\n";
    assert_eq!(parse_ply(text.as_bytes()), Err(PlyError::MissingVertexElement));
    assert_eq!(
        parse_ply(b"ply\nformat ascii 1.0\nend_header\n"),
        Err(PlyError::MissingVertexElement)
    );
}

#[test]
fn malformed_payload_is_rejected() {
    let mut short = binary_file(&[1.0, 2.0], true);
    short.truncate(short.len() - 3);
    assert_eq!(parse_ply(&short), Err(PlyError::MalformedPayload));

    let text = "ply\nformat ascii 1.0\nelement vertex 2\nproperty float x\nproperty float y\n\
                end_header\n1 2\n3\n";
    assert_eq!(parse_ply(text.as_bytes()), Err(PlyError::MalformedPayload));
    let text = "ply\nformat ascii 1.0\nelement vertex 1\nproperty float x\nend_header\nabc\n";
    assert_eq!(parse_ply(text.as_bytes()), Err(PlyError::MalformedPayload));
}

#[test]
fn classify_knows_the_names() {
    assert_eq!(classify(b"x"), Some(Attribute::Position(0)));
    assert_eq!(classify(b"y"), Some(Attribute::Position(1)));
    assert_eq!(classify(b"z"), Some(Attribute::Position(2)));
    assert_eq!(classify(b"f_dc_0"), Some(Attribute::ColorBase(0)));
    assert_eq!(classify(b"f_dc_1"), Some(Attribute::ColorBase(1)));
    assert_eq!(classify(b"f_dc_2"), Some(Attribute::ColorBase(2)));
    assert_eq!(classify(b"scale_0"), Some(Attribute::Scale(0)));
    assert_eq!(classify(b"scale_1"), Some(Attribute::Scale(1)));
    assert_eq!(classify(b"scale_2"), Some(Attribute::Scale(2)));
    assert_eq!(classify(b"opacity"), Some(Attribute::Opacity));
    assert_eq!(classify(b"rot_0"), Some(Attribute::Rotation(0)));
    assert_eq!(classify(b"rot_1"), Some(Attribute::Rotation(1)));
    assert_eq!(classify(b"rot_2"), Some(Attribute::Rotation(2)));
    assert_eq!(classify(b"rot_3"), Some(Attribute::Rotation(3)));
    assert_eq!(classify(b"f_rest_0"), Some(Attribute::ColorRest(0)));
    assert_eq!(classify(b"f_rest_44"), Some(Attribute::ColorRest(44)));
    assert_eq!(classify(b"f_rest_007"), Some(Attribute::ColorRest(7)));
    assert_eq!(classify(b"f_rest_+7"), Some(Attribute::ColorRest(7)));
}

#[test]
fn classify_passes_over_other_names() {
    for name in [
        &b""[..], b"X", b"xx", b"w", b"f_dc_3", b"f_dc_", b"scale_3", b"rot_4", b"Opacity",
        b"opacity ", b"f_rest_45", b"f_rest_", b"f_rest_+", b"f_rest_-1", b"f_rest_1a",
        b"f_rest_ 1", b"f_rest_99999999999999999999999999", b"f_rest_4x4", b"f_rest", b"nx",
    ] {
        assert_eq!(classify(name), None);
    }
}

#[test]
fn index_parsing() {
    assert_eq!(parse_index_below(b"0", 45), Some(0));
    assert_eq!(parse_index_below(b"44", 45), Some(44));
    assert_eq!(parse_index_below(b"45", 45), None);
    assert_eq!(parse_index_below(b"0044", 45), Some(44));
    assert_eq!(parse_index_below(b"+12", 45), Some(12));
    assert_eq!(parse_index_below(b"", 45), None);
    assert_eq!(parse_index_below(b"+", 45), None);
    assert_eq!(parse_index_below(b"++1", 45), None);
    assert_eq!(parse_index_below(b"1+", 45), None);
    assert_eq!(parse_index_below(b"12a", 45), None);
    assert_eq!(parse_index_below(b"123456789012345678901234567890", 1000), None);
    assert_eq!(parse_index_below(b"999", 1000), Some(999));
    assert_eq!(parse_index_below(b"0", 0), None);
}

#[test]
fn key_matching() {
    assert!(key_is(b"vertex", "vertex"));
    assert!(!key_is(b"vertex", "verte"));
    assert!(!key_is(b"verte", "vertex"));
    assert!(!key_is(b"vertey", "vertex"));
    assert!(key_is(b"", ""));
    assert!(key_starts_with(b"f_rest_12", "f_rest_"));
    assert!(key_starts_with(b"f_rest_", "f_rest_"));
    assert!(!key_starts_with(b"f_rest", "f_rest_"));
    assert!(!key_starts_with(b"g_rest_1", "f_rest_"));
}

#[test]
fn set_property_stores_floats_only() {
    let mut g = Gaussian::default();
    g.set_property(b"x", Some(5));
    g.set_property(b"y", None);
    g.set_property(b"unknown", Some(9));
    g.set_property(b"opacity", Some(6));
    g.set_property(b"f_rest_2", Some(7));
    g.set_property(b"f_rest_45", Some(8));
    g.set_property(b"rot_3", Some(10));
    g.set_property(b"scale_1", Some(11));
    g.set_property(b"f_dc_2", Some(12));
    let mut e = Gaussian::default();
    e.position_visibility.position[0] = 5;
    e.scale_opacity.opacity = 6;
    e.spherical_harmonic.coefficients[5] = 7;
    e.rotation.rotation[3] = 10;
    e.scale_opacity.scale[1] = 11;
    e.spherical_harmonic.coefficients[2] = 12;
    assert_eq!(g, e);
    g.set_attribute(Attribute::Position(2), 13);
    e.position_visibility.position[2] = 13;
    assert_eq!(g, e);
}

#[test]
fn later_property_wins() {
    let record = vec![
        (b"x".to_vec(), Some(1)),
        (b"f_rest_1".to_vec(), Some(2)),
        (b"x".to_vec(), Some(3)),
        (b"f_rest_01".to_vec(), Some(4)),
        (b"x".to_vec(), None),
    ];
    let g = decode_vertex(&record);
    assert_eq!(g.position_visibility.position[0], 3);
    assert_eq!(g.spherical_harmonic.coefficients[2 * 3], 4);
    assert_eq!(g.position_visibility.visibility, 1.0f32.to_bits());
    assert_eq!(decode_vertices(&vec![record.clone(), Vec::new()])[0], g);
    let mut blank = Gaussian::default();
    blank.position_visibility.visibility = 1.0f32.to_bits();
    assert_eq!(decode_vertices(&vec![record, Vec::new()])[1], blank);
}

#[test]
fn vertex_element_is_found_by_name() {
    let names = vec![b"face".to_vec(), b"vertex".to_vec(), b"vertex".to_vec()];
    assert_eq!(find_vertex_element(&names), Some(1));
    assert_eq!(find_vertex_element(&vec![b"Vertex".to_vec(), b"vertices".to_vec()]), None);
    assert_eq!(find_vertex_element(&Vec::new()), None);
}

#[test]
fn elements_before_the_vertices_are_read_past() {
    let text = "ply\nformat ascii 1.0\nelement camera 2\nproperty float x\nproperty int id\n\
                element vertex 2\nproperty float x\nproperty float opacity\nelement face 1\n\
                property list uchar int vertex_index\nend_header\n9.5 1\n8.5 2\n1.5 0.25\n\
                2.5 0.75\n3 0 1 2\n";
    let cloud = parse_ply(text.as_bytes()).unwrap();
    assert_eq!(cloud.len(), 2);
    assert_eq!(cloud[0].position_visibility.position[0], bits(1.5));
    assert_eq!(cloud[0].scale_opacity.opacity, bits(0.25));
    assert_eq!(cloud[1].position_visibility.position[0], bits(2.5));
    assert_eq!(cloud[1].scale_opacity.opacity, bits(0.75));

    let mut bytes = b"ply\nformat binary_little_endian 1.0\nelement camera 1\n\
                      property uchar id\nproperty double x\nelement vertex 1\n\
                      property float z\nend_header\n"
        .to_vec();
    bytes.push(7);
    bytes.extend_from_slice(&1.0f64.to_le_bytes());
    bytes.extend_from_slice(&4.5f32.to_le_bytes());
    let cloud = parse_ply(&bytes).unwrap();
    assert_eq!(cloud.len(), 1);
    assert_eq!(cloud[0].position_visibility.position, [0, 0, bits(4.5)]);
}

#[test]
fn malformed_payload_before_the_vertices_is_rejected() {
    let text = "ply\nformat ascii 1.0\nelement camera 2\nproperty float x\nelement vertex 1\n\
                property float x\nend_header\n9.5\nabc\n1.5\n";
    assert_eq!(parse_ply(text.as_bytes()), Err(PlyError::MalformedPayload));
}

#[test]
fn records_tell_what_they_set() {
    let text = "ply\nformat ascii 1.0\nelement vertex 2\nproperty float x\nproperty float scale_0\n\
                property uchar opacity\nend_header\n1 2 3\n4 5 6\n";
    let records = read_vertex_records(text.as_bytes()).unwrap();
    assert_eq!(records.len(), 2);
    assert_eq!(records[0], vec![
        (b"x".to_vec(), Some(bits(1.0))),
        (b"scale_0".to_vec(), Some(bits(2.0))),
        (b"opacity".to_vec(), None),
    ]);
    assert!(sets_attribute(&records[0], Attribute::Position(0)));
    assert!(sets_attribute(&records[1], Attribute::Scale(0)));
    assert!(!sets_attribute(&records[0], Attribute::Opacity));
    assert!(!sets_attribute(&records[0], Attribute::Position(1)));
    assert!(!sets_attribute(&Vec::new(), Attribute::Opacity));
    assert_eq!(decode_vertices(&records), parse_ply(text.as_bytes()).unwrap());
}
