use doplr::metadata::providers::musicbrainz::entities::{
    Alias, Artist, ArtistCredit, Medium, Recording, Release, ReleaseStatus, Track,
};

#[test]
fn known_statuses_are_read_by_name() {
    assert!(matches!(ReleaseStatus::from_text("Official"), ReleaseStatus::Official));
    assert!(matches!(ReleaseStatus::from_text("Promotional"), ReleaseStatus::Promotional));
    assert!(matches!(ReleaseStatus::from_text("Bootleg"), ReleaseStatus::Bootleg));
    assert!(matches!(ReleaseStatus::from_text("Pseudo-Release"), ReleaseStatus::PseudoRelease));
}

#[test]
fn unknown_status_keeps_its_text() {
    match ReleaseStatus::from_text("Withdrawn") {
        ReleaseStatus::Unknown(text) => assert_eq!("Withdrawn", text),
        other => panic!("unexpected status {:?}", other),
    }
}

#[test]
fn status_names_are_matched_exactly() {
    for text in ["official", "OFFICIAL", "Official ", " Official", "PseudoRelease", "Pseudo-release", "", "Officia", "Officiall"] {
        match ReleaseStatus::from_text(text) {
            ReleaseStatus::Unknown(kept) => assert_eq!(text, kept),
            other => panic!("unexpected status {:?}", other),
        }
    }
}

#[test]
fn status_read_from_a_decoded_record() {
    let record: serde_json::Value =
        serde_json::from_str("{\"id\": \"r1\", \"title\": \"T\", \"status\": \"Cancelled\", \"media\": []}").unwrap();
    let status = ReleaseStatus::from_text(record["status"].as_str().unwrap());
    assert!(matches!(status, ReleaseStatus::Unknown(ref s) if s == "Cancelled"));
    let record: serde_json::Value = serde_json::from_str("{\"status\": \"Bootleg\"}").unwrap();
    let status = ReleaseStatus::from_text(record["status"].as_str().unwrap());
    assert!(matches!(status, ReleaseStatus::Bootleg));
}

#[test]
fn records_hold_absent_fields_as_none() {
    let artist = Artist {
        id: String::from("a1"),
        name: String::from("Cool Artist"),
        sort_name: String::from("Artist, Cool"),
        aliases: Some(vec![Alias {
            locale: None,
            sort_name: String::from("Artist, Cool"),
            ty: None,
            type_id: None,
            name: String::from("C. Artist"),
        }]),
    };
    let release = Release {
        id: String::from("r1"),
        title: String::from("Amazing Album"),
        artist_credit: None,
        date: None,
        country: None,
        status: ReleaseStatus::from_text("Official"),
        media: vec![Medium {
            position: 1,
            format: None,
            track: vec![Track {
                id: String::from("t1"),
                number: String::from("A1"),
                title: String::from("Great Song"),
                length: None,
            }],
        }],
    };
    let recording = Recording {
        id: None,
        title: Some(String::from("Great Song")),
        artist_credit: vec![ArtistCredit { name: None, artist }],
        length: Some(215000),
        releases: Some(vec![release]),
    };
    assert!(recording.id.is_none());
    assert_eq!(Some(215000), recording.length);
    assert_eq!(1, recording.artist_credit.len());
    assert!(recording.artist_credit[0].name.is_none());
    let releases = recording.releases.as_ref().unwrap();
    assert!(releases[0].date.is_none());
    assert!(matches!(releases[0].status, ReleaseStatus::Official));
    assert_eq!("A1", releases[0].media[0].track[0].number);
    assert!(releases[0].media[0].track[0].length.is_none());
}
