use image_server::config::{ConfigError, ImageConfig, MediaConfig, MediaConfigRaw, NetworkConfigRaw};
use image_server::filter::{get_canonical_path_if_image, is_image_extension, is_supported_lowered, EntryInfo};
use image_server::media::MediaState;
use image_server::walk::{find_absolute_image_path, BuildError, DirListing, MediaWalk};

fn config(resolution: u32) -> MediaConfig {
    let raw = MediaConfigRaw {
        media: "/srv/media".to_string(),
        network: NetworkConfigRaw { addr: [127, 0, 0, 1], port: 8080 },
        image: ImageConfig { resolution },
    };
    MediaConfig::new(raw).unwrap()
}

fn file(dir: &str, name: &str, ext: Option<&str>) -> EntryInfo {
    let path = match ext {
        Some(e) => format!("{}/{}.{}", dir, name, e),
        None => format!("{}/{}", dir, name),
    };
    EntryInfo {
        path: path.clone(),
        is_dir: false,
        is_file: true,
        extension: ext.map(|e| e.to_string()),
        canonical: Some(path),
    }
}

fn dir(path: &str) -> EntryInfo {
    EntryInfo {
        path: path.to_string(),
        is_dir: true,
        is_file: false,
        extension: None,
        canonical: Some(path.to_string()),
    }
}

fn listing(entries: Vec<EntryInfo>) -> DirListing {
    DirListing { entries, complete: true }
}

/// Runs a walk against a simulated tree: `tree` gives each directory's listing.
fn walk_tree(root: &str, root_is_dir: bool, tree: &dyn Fn(&str) -> DirListing) -> MediaWalk {
    let mut walk = MediaWalk::start(root.to_string(), root_is_dir);
    while let Some(d) = walk.next_directory() {
        let l = tree(&d);
        walk.record(&l);
    }
    walk
}

#[test]
fn config_rejects_zero_resolution() {
    let raw = MediaConfigRaw {
        media: "/srv/media".to_string(),
        network: NetworkConfigRaw { addr: [0, 0, 0, 0], port: 80 },
        image: ImageConfig { resolution: 0 },
    };
    assert_eq!(MediaConfig::new(raw).unwrap_err(), ConfigError::ZeroResolution);
}

#[test]
fn config_keeps_fields() {
    let c = config(300);
    assert_eq!(c.media, "/srv/media");
    assert_eq!(c.network.addr, [127, 0, 0, 1]);
    assert_eq!(c.network.port, 8080);
    assert_eq!(c.image.resolution, 300);
}

#[test]
fn default_resolution_is_720() {
    assert_eq!(ImageConfig::default().resolution, 720);
}

#[test]
fn lowered_extensions() {
    assert!(is_supported_lowered("png"));
    assert!(is_supported_lowered("jpg"));
    assert!(is_supported_lowered("jpeg"));
    assert!(!is_supported_lowered("PNG"));
    assert!(!is_supported_lowered("gif"));
    assert!(!is_supported_lowered(""));
}

#[test]
fn extensions_in_any_case() {
    assert!(is_image_extension("PNG"));
    assert!(is_image_extension("JpEg"));
    assert!(is_image_extension("Jpg"));
    assert!(is_image_extension("png"));
    assert!(!is_image_extension("gif"));
    assert!(!is_image_extension("pngx"));
    assert!(!is_image_extension(""));
}

#[test]
fn filter_excludes_what_is_not_an_image_file() {
    let ok = file("/m", "a", Some("PNG"));
    assert_eq!(get_canonical_path_if_image(&ok), Some("/m/a.PNG".to_string()));
    assert_eq!(get_canonical_path_if_image(&file("/m", "b", None)), None);
    assert_eq!(get_canonical_path_if_image(&file("/m", "c", Some("txt"))), None);
    let mut special = file("/m", "d", Some("jpg"));
    special.is_file = false;
    assert_eq!(get_canonical_path_if_image(&special), None);
    let mut broken = file("/m", "e", Some("jpeg"));
    broken.canonical = None;
    assert_eq!(get_canonical_path_if_image(&broken), None);
}

fn nested_tree(d: &str) -> DirListing {
    match d {
        "/m" => listing(vec![
            file("/m", "a", Some("PNG")),
            file("/m", "notes", Some("txt")),
            dir("/m/x"),
            file("/m", "b", Some("jpg")),
        ]),
        "/m/x" => listing(vec![dir("/m/x/y"), file("/m/x", "c", Some("JPEG")), file("/m/x", "d", None)]),
        "/m/x/y" => listing(vec![file("/m/x/y", "e", Some("jpeg")), file("/m/x/y", "f", Some("gif"))]),
        _ => listing(vec![]),
    }
}

#[test]
fn nested_tree_counts_supported_files() {
    let walk = walk_tree("/m", true, &nested_tree);
    let state = MediaState::new(config(720), &walk).unwrap();
    assert_eq!(state.image_count(), 4);
    let mut paths: Vec<String> = (0..state.image_count()).map(|i| state.image_at(i).to_string()).collect();
    paths.sort();
    assert_eq!(paths, vec!["/m/a.PNG", "/m/b.jpg", "/m/x/c.JPEG", "/m/x/y/e.jpeg"]);
}

#[test]
fn no_supported_files_is_empty_index() {
    let tree = |d: &str| match d {
        "/m" => listing(vec![file("/m", "a", Some("txt")), dir("/m/x")]),
        _ => listing(vec![file("/m/x", "b", Some("bmp"))]),
    };
    let walk = walk_tree("/m", true, &tree);
    assert_eq!(MediaState::new(config(720), &walk).err(), Some(BuildError::EmptyIndex));
}

#[test]
fn non_directory_root_is_rejected() {
    let walk = walk_tree("/m/a.png", false, &nested_tree);
    assert_eq!(walk.next_directory(), None);
    assert_eq!(MediaState::new(config(720), &walk).err(), Some(BuildError::NotADirectory));
    assert_eq!(find_absolute_image_path(&walk).unwrap(), Vec::<String>::new());
}

#[test]
fn unreadable_root_fails_the_walk() {
    let tree = |_: &str| DirListing { entries: vec![], complete: false };
    let walk = walk_tree("/m", true, &tree);
    assert_eq!(MediaState::new(config(720), &walk).err(), Some(BuildError::WalkFailed));
}

#[test]
fn unreadable_subdirectory_spares_siblings() {
    let tree = |d: &str| match d {
        "/m" => listing(vec![dir("/m/locked"), dir("/m/open"), file("/m", "top", Some("png"))]),
        "/m/locked" => DirListing { entries: vec![], complete: false },
        "/m/open" => listing(vec![file("/m/open", "s", Some("jpg"))]),
        _ => listing(vec![]),
    };
    let walk = walk_tree("/m", true, &tree);
    let mut found = find_absolute_image_path(&walk).unwrap();
    found.sort();
    assert_eq!(found, vec!["/m/open/s.jpg", "/m/top.png"]);
}

#[test]
fn partial_subdirectory_listing_keeps_what_was_read() {
    let tree = |d: &str| match d {
        "/m" => listing(vec![dir("/m/half")]),
        "/m/half" => DirListing { entries: vec![file("/m/half", "k", Some("png"))], complete: false },
        _ => listing(vec![]),
    };
    let walk = walk_tree("/m", true, &tree);
    assert_eq!(find_absolute_image_path(&walk).unwrap(), vec!["/m/half/k.png"]);
}

#[test]
fn random_selection_is_roughly_uniform() {
    let tree = |d: &str| match d {
        "/m" => listing((0..5).map(|i| file("/m", &format!("p{}", i), Some("png"))).collect()),
        _ => listing(vec![]),
    };
    let walk = walk_tree("/m", true, &tree);
    let state = MediaState::new(config(720), &walk).unwrap();
    let mut counts = std::collections::HashMap::new();
    for _ in 0..20000 {
        *counts.entry(state.get_random_image().to_string()).or_insert(0usize) += 1;
    }
    assert_eq!(counts.len(), 5);
    for (_, c) in counts {
        assert!(c > 3400 && c < 4600, "count {}", c);
    }
}

#[test]
fn random_image_with_one_entry() {
    let tree = |d: &str| match d {
        "/m" => listing(vec![file("/m", "only", Some("jpg"))]),
        _ => listing(vec![]),
    };
    let walk = walk_tree("/m", true, &tree);
    let state = MediaState::new(config(64), &walk).unwrap();
    assert_eq!(state.get_random_image(), "/m/only.jpg");
    assert_eq!(state.media_config().image.resolution, 64);
}
