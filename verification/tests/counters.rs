use vsm_reader::counters::{
    decode_point, qualified_name, sample, semantics_from_code, stats, RawPoint, Semantics,
};
use vsm_reader::IntegrityError;

fn raw_point(typ: &str, ident: &str, name: &str, value: u64, semantics: char) -> RawPoint {
    RawPoint {
        class: "Stat".to_string(),
        fantom_typ: typ.to_string(),
        fantom_ident: ident.to_string(),
        section_typ: typ.to_string(),
        section_ident: ident.to_string(),
        section_sdesc: "section short".to_string(),
        section_ldesc: "section long".to_string(),
        name: name.to_string(),
        ctype: "uint64_t".to_string(),
        semantics,
        format: 'i',
        sdesc: "short".to_string(),
        ldesc: "long".to_string(),
        value,
    }
}

#[test]
fn qualified_name_without_ident() {
    let n = qualified_name("MAIN", "", "sess_conn");
    assert_eq!(n, "MAIN.sess_conn");
}

#[test]
fn qualified_name_with_ident() {
    let n = qualified_name("VBE", "boot.default", "bereq_hdrbytes");
    assert_eq!(n, "VBE.boot.default.bereq_hdrbytes");
}

#[test]
fn semantics_documented_codes() {
    assert_eq!(semantics_from_code('b'), Semantics::Bitmap);
    assert_eq!(semantics_from_code('c'), Semantics::Counter);
    assert_eq!(semantics_from_code('g'), Semantics::Gauge);
}

#[test]
fn semantics_unmapped_codes_are_unknown() {
    for c in ['B', 'C', 'G', 'x', 'z', ' ', '\0', '0', '?'] {
        assert_eq!(semantics_from_code(c), Semantics::Unknown);
    }
}

#[test]
fn decode_point_accepts_valid_entry() {
    let p = raw_point("MAIN", "", "sess_conn", 42, 'c');
    let e = decode_point(&p).unwrap();
    assert_eq!(e.t, "MAIN");
    assert_eq!(e.ident, "");
    assert_eq!(e.value, 42);
    assert_eq!(e.desc.name, "sess_conn");
    assert_eq!(e.desc.semantics, 'c');
    assert_eq!(e.desc.format, 'i');
    assert_eq!(e.desc.sdesc, "short");
    assert_eq!(e.desc.ldesc, "long");
    assert_eq!(e.section.ident, "");
    assert_eq!(e.section.sdesc, "section short");
    assert_eq!(e.section.ldesc, "section long");
}

#[test]
fn decode_point_rejects_wrong_section_class() {
    let mut p = raw_point("MAIN", "", "sess_conn", 1, 'c');
    p.class = "Log".to_string();
    assert_eq!(decode_point(&p).unwrap_err(), IntegrityError::WrongSectionClass);
}

#[test]
fn decode_point_rejects_wrong_value_type() {
    let mut p = raw_point("MAIN", "", "sess_conn", 1, 'c');
    p.ctype = "uint32_t".to_string();
    assert_eq!(decode_point(&p).unwrap_err(), IntegrityError::WrongValueType);
}

#[test]
fn decode_point_rejects_section_mismatch() {
    let mut p = raw_point("MAIN", "", "sess_conn", 1, 'c');
    p.section_ident = "other".to_string();
    assert_eq!(decode_point(&p).unwrap_err(), IntegrityError::SectionMismatch);
}

#[test]
fn sample_builds_name_value_semantics() {
    let e = decode_point(&raw_point("VBE", "boot.default", "bereq_hdrbytes", 7, 'g')).unwrap();
    let s = sample(&e);
    assert_eq!(s.name, "VBE.boot.default.bereq_hdrbytes");
    assert_eq!(s.value, 7);
    assert_eq!(s.semantics, Semantics::Gauge);
}

#[test]
fn stats_samples_whole_table_in_order() {
    let points = vec![
        raw_point("MAIN", "", "sess_conn", 10, 'c'),
        raw_point("MAIN", "", "uptime", 99, 'b'),
        raw_point("VBE", "boot.default", "bereq_hdrbytes", 5, 'g'),
    ];
    let out = stats(&points).unwrap();
    assert_eq!(out.len(), 3);
    assert_eq!(out[0].name, "MAIN.sess_conn");
    assert_eq!(out[0].value, 10);
    assert_eq!(out[0].semantics, Semantics::Counter);
    assert_eq!(out[1].name, "MAIN.uptime");
    assert_eq!(out[1].value, 99);
    assert_eq!(out[1].semantics, Semantics::Bitmap);
    assert_eq!(out[2].name, "VBE.boot.default.bereq_hdrbytes");
    assert_eq!(out[2].value, 5);
    assert_eq!(out[2].semantics, Semantics::Gauge);
}

#[test]
fn stats_one_pass_yields_unique_names() {
    let points = vec![
        raw_point("MAIN", "", "sess_conn", 1, 'c'),
        raw_point("MAIN", "", "client_req", 2, 'c'),
        raw_point("VBE", "boot", "sess_conn", 3, 'c'),
    ];
    let out = stats(&points).unwrap();
    for i in 0..out.len() {
        for j in 0..out.len() {
            if i != j {
                assert_ne!(out[i].name, out[j].name);
            }
        }
    }
}

#[test]
fn stats_on_empty_table_yields_nothing() {
    let out = stats(&Vec::new()).unwrap();
    assert!(out.is_empty());
}

#[test]
fn stats_fails_fast_on_first_bad_entry() {
    let mut bad = raw_point("MAIN", "", "uptime", 2, 'c');
    bad.ctype = "double".to_string();
    let points = vec![raw_point("MAIN", "", "sess_conn", 1, 'c'), bad];
    assert_eq!(stats(&points).unwrap_err(), IntegrityError::WrongValueType);
}
