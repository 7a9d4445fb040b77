use chartscan::regions::{verify_code, RegionString, Regions};

#[test]
fn it_workd() {
    let v = Regions::regions_vec();
    println!("{:?}", v);
}

#[test]
fn from_str_1() {
    let st = "global";
    assert_eq!(Regions::GLOBAL, From::from(st));
}

#[test]
fn from_str_2() {
    let st = "at";
    assert_eq!(Regions::AT, From::from(st));
}

#[test]
fn from_str_3() {
    let st = "at ";
    assert_eq!(Regions::NOTVALID, From::from(st));
}

#[test]
fn from_u8_1() {
    assert_eq!(Regions::GLOBAL, From::from(0));
}

#[test]
fn from_u8_2() {
    assert_eq!(Regions::US, From::from(1));
}

#[test]
fn from_u8_3() {
    assert_eq!(Regions::NOTVALID, From::from(40));
}

#[test]
fn region_string_1() {
    let actual = Regions::NOTVALID;
    assert_eq!(actual.to_region_string(), String::from("Invalid"));
}

#[test]
fn region_string_2() {
    let actual = Regions::GLOBAL;
    assert_eq!(actual.to_region_string(), String::from("Global"));
}

#[test]
fn region_string_3() {
    let actual = Regions::US;
    assert_eq!(actual.to_region_string(), String::from("US"));
}

#[test]
fn verify_code_us() {
    assert!(verify_code("us"));
}

#[test]
fn verify_code_global() {
    assert!(verify_code("global"));
}

#[test]
fn verify_code_invalid_oo() {
    assert!(!verify_code("oo"));
}

#[test]
fn regions_vec_lists_every_region_once() {
    let v = Regions::regions_vec();
    assert_eq!(v.len(), 36);
    assert_eq!(v[0], Regions::GLOBAL);
    assert_eq!(v[35], Regions::TH);
    for r in &v {
        assert_ne!(*r, Regions::NOTVALID);
    }
}

#[test]
fn code_string_round_trips_through_classification() {
    for r in Regions::regions_vec() {
        let code = r.code_string();
        assert_eq!(r, Regions::from(code.as_str()));
        assert!(verify_code(code.as_str()));
    }
}
