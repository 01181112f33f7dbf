use dev_environment_launcher::project_type::{DirectoryMarkers, Marker, ProjectType};

fn markers_with(found: &[Marker]) -> DirectoryMarkers {
    let mut markers = DirectoryMarkers::none();
    for marker in found {
        markers.record(*marker, true);
    }
    markers
}

#[test]
fn unity_entries_classify_as_unity() {
    let markers = markers_with(&[Marker::Assets, Marker::Packages, Marker::ProjectSettings]);
    assert_eq!(ProjectType::from_markers(&markers), Some(ProjectType::Unity));
}

#[test]
fn rust_entries_classify_as_rust() {
    let markers = markers_with(&[Marker::Src, Marker::CargoToml, Marker::CargoLock]);
    assert_eq!(ProjectType::from_markers(&markers), Some(ProjectType::Rust));
}

#[test]
fn unity_is_looked_for_first() {
    let markers = markers_with(&Marker::all());
    assert_eq!(ProjectType::from_markers(&markers), Some(ProjectType::Unity));
}

#[test]
fn empty_directory_is_unrecognized() {
    assert_eq!(ProjectType::from_markers(&DirectoryMarkers::none()), None);
}

#[test]
fn missing_any_unity_entry_is_unrecognized() {
    let unity = [Marker::Assets, Marker::Packages, Marker::ProjectSettings];
    for missing in unity {
        let mut markers = markers_with(&unity);
        markers.record(missing, false);
        assert_eq!(ProjectType::from_markers(&markers), None);
    }
}

#[test]
fn missing_any_rust_entry_is_unrecognized() {
    let rust = [Marker::Src, Marker::CargoToml, Marker::CargoLock];
    for missing in rust {
        let mut markers = markers_with(&rust);
        markers.record(missing, false);
        assert_eq!(ProjectType::from_markers(&markers), None);
    }
}

#[test]
fn rust_project_with_some_unity_entries_is_rust() {
    let markers = markers_with(&[
        Marker::Assets,
        Marker::Packages,
        Marker::Src,
        Marker::CargoToml,
        Marker::CargoLock,
    ]);
    assert_eq!(ProjectType::from_markers(&markers), Some(ProjectType::Rust));
}

#[test]
fn every_one_of_the_sixty_four_directories_is_classified_by_the_rule() {
    let all = Marker::all();
    for bits in 0u32..64 {
        let mut markers = DirectoryMarkers::none();
        for (i, marker) in all.iter().enumerate() {
            markers.record(*marker, bits & (1 << i) != 0);
        }
        let unity = bits & 0b000111 == 0b000111;
        let rust = bits & 0b111000 == 0b111000;
        let expected = if unity {
            Some(ProjectType::Unity)
        } else if rust {
            Some(ProjectType::Rust)
        } else {
            None
        };
        assert_eq!(ProjectType::from_markers(&markers), expected);
    }
}

#[test]
fn markers_are_recorded_one_by_one() {
    let mut markers = DirectoryMarkers::none();
    for marker in Marker::all() {
        assert!(!markers.has(marker));
    }
    markers.record(Marker::CargoToml, true);
    assert!(markers.has(Marker::CargoToml));
    assert!(!markers.has(Marker::CargoLock));
    assert!(markers.cargo_toml);
    markers.record(Marker::CargoToml, false);
    assert_eq!(markers, DirectoryMarkers::none());
}

#[test]
fn marker_entry_names() {
    assert_eq!(Marker::Assets.entry_name(), "Assets");
    assert_eq!(Marker::Packages.entry_name(), "Packages");
    assert_eq!(Marker::ProjectSettings.entry_name(), "ProjectSettings");
    assert_eq!(Marker::Src.entry_name(), "src");
    assert_eq!(Marker::CargoToml.entry_name(), "Cargo.toml");
    assert_eq!(Marker::CargoLock.entry_name(), "Cargo.lock");
}

#[test]
fn all_markers_in_order() {
    assert_eq!(
        Marker::all(),
        vec![
            Marker::Assets,
            Marker::Packages,
            Marker::ProjectSettings,
            Marker::Src,
            Marker::CargoToml,
            Marker::CargoLock,
        ]
    );
}

#[test]
fn kind_is_read_from_its_name_in_any_case() {
    assert_eq!(ProjectType::from_str("unity"), Ok(ProjectType::Unity));
    assert_eq!(ProjectType::from_str("rust"), Ok(ProjectType::Rust));
    assert_eq!(ProjectType::from_str("UNITY"), Ok(ProjectType::Unity));
    assert_eq!(ProjectType::from_str("RuSt"), Ok(ProjectType::Rust));
}

#[test]
fn unknown_kind_is_refused_with_the_name_as_written() {
    assert_eq!(
        ProjectType::from_str("Godot"),
        Err(String::from("'Godot' is not a valid project type"))
    );
    assert_eq!(ProjectType::from_str(""), Err(String::from("'' is not a valid project type")));
    assert_eq!(
        ProjectType::from_str(" rust"),
        Err(String::from("' rust' is not a valid project type"))
    );
}

#[test]
fn lowered_name_decides_the_kind() {
    assert_eq!(ProjectType::from_lowercase("unity", "Unity"), Ok(ProjectType::Unity));
    assert_eq!(ProjectType::from_lowercase("rust", "RUST"), Ok(ProjectType::Rust));
    assert_eq!(
        ProjectType::from_lowercase("Unity", "Unity"),
        Err(String::from("'Unity' is not a valid project type"))
    );
    assert_eq!(
        ProjectType::from_lowercase("go", "Go"),
        Err(String::from("'Go' is not a valid project type"))
    );
}

#[test]
fn kind_names_itself_in_lower_case() {
    assert_eq!(ProjectType::Unity.to_string(), "unity");
    assert_eq!(ProjectType::Rust.to_string(), "rust");
    assert_eq!(ProjectType::from_str(&ProjectType::Unity.to_string()), Ok(ProjectType::Unity));
    assert_eq!(ProjectType::from_str(&ProjectType::Rust.to_string()), Ok(ProjectType::Rust));
}
