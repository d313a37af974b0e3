use esp_wmata_pids::{
    build_next_trains_url, Eta, LineKind, NextTrain, Station, StationName, TrainCar,
};

#[test]
fn line_names_and_codes() {
    assert_eq!(LineKind::GN.name(), "green");
    assert_eq!(LineKind::GN.code(), "GR");
    assert_eq!(LineKind::BL.code(), "BL");
    assert_eq!(LineKind::RD.name(), "red");
    assert_eq!(LineKind::NO.name(), "no passengers");
    assert_eq!(LineKind::YL.code(), "YL");
}

#[test]
fn station_codes_and_url() {
    assert_eq!(Station::K04.code(), "K04");
    assert_eq!(Station::A01.code(), "A01");
    assert_eq!(Station::N12.code(), "N12");
    assert_eq!(
        build_next_trains_url(Station::K04),
        "http://api.wmata.com/StationPrediction.svc/json/GetPrediction/K04"
    );
}

#[test]
fn eta_and_car_text() {
    assert_eq!(Eta::Minutes(5).to_string(), "5m");
    assert_eq!(Eta::Minutes(0).to_string(), "0m");
    assert_eq!(Eta::Minutes(12).to_string(), "12m");
    assert_eq!(Eta::Minutes(255).to_string(), "255m");
    assert_eq!(Eta::Arriving.to_string(), "ARR");
    assert_eq!(Eta::Boarding.to_string(), "BRD");
    assert_eq!(TrainCar(8).to_string(), "8");
    assert_eq!(TrainCar(100).to_string(), "100");
}

#[test]
fn parsing_api_text() {
    assert_eq!(Eta::parse("ARR"), Some(Eta::Arriving));
    assert_eq!(Eta::parse("BRD"), Some(Eta::Boarding));
    assert_eq!(Eta::parse("7"), Some(Eta::Minutes(7)));
    assert_eq!(Eta::parse("---"), None);
    assert_eq!(Eta::parse(""), None);
    assert_eq!(Eta::parse("256"), None);
    assert_eq!(TrainCar::parse("8"), Some(TrainCar(8)));
    assert_eq!(TrainCar::parse("+6"), Some(TrainCar(6)));
    assert_eq!(TrainCar::parse("-"), None);
    assert_eq!(TrainCar::parse(" 8"), None);
}

#[test]
fn station_names_are_bounded() {
    let ok = "x".repeat(32);
    assert_eq!(StationName::parse(&ok).unwrap().0, ok);
    assert!(StationName::parse(&"x".repeat(33)).is_none());
}

fn train(line: Option<LineKind>, cars: Option<u8>, min: Option<Eta>) -> NextTrain {
    NextTrain {
        cars: cars.map(TrainCar),
        destination: StationName::parse("Vienna").unwrap(),
        destination_code: Some(Station::K08),
        destination_name: StationName::parse("Vienna"),
        line,
        location_code: Station::K04,
        location_name: StationName::parse("Ballston-MU").unwrap(),
        min,
    }
}

#[test]
fn one_line_summary() {
    let mut s = String::new();
    train(Some(LineKind::OR), Some(8), Some(Eta::Minutes(3))).write_debug_display(&mut s);
    assert_eq!(s, "[OR] (8) Vienna - 3m");
    let mut s = String::from(">");
    train(None, None, None).write_debug_display(&mut s);
    assert_eq!(s, ">[  ] Vienna ");
    let mut s = String::new();
    train(Some(LineKind::SV), None, Some(Eta::Boarding)).write_debug_display(&mut s);
    assert_eq!(s, "[SV] Vienna - BRD");
}

#[test]
fn codes_parse_back() {
    assert_eq!(Station::from_code("K04"), Some(Station::K04));
    assert_eq!(Station::from_code("B35"), Some(Station::B35));
    assert_eq!(Station::from_code("N12"), Some(Station::N12));
    assert_eq!(Station::from_code("Z99"), None);
    assert_eq!(Station::from_code("k04"), None);
    assert_eq!(LineKind::from_variant("OR"), Some(LineKind::OR));
    assert_eq!(LineKind::from_variant("GN"), Some(LineKind::GN));
    assert_eq!(LineKind::from_variant("GR"), None);
}
