use ra_ap_ide::AnalysisHost;
use ra_ap_test_fixture::ChangeFixture;
use ra_ap_vfs::{Vfs, VfsPath};
use ra_batch::error::ErrorKind;
use ra_batch::paths::AbsolutePath;
use ra_batch::resolve::{crate_line, crate_lines, crate_options, crates_for, CrateInfo, Workspace};
use ra_batch::vfs::{accept, lookup};

fn abs(path: &str) -> AbsolutePath {
    AbsolutePath::new(String::from(path)).unwrap()
}

fn load(fixture: &str, paths: &[&str]) -> Workspace {
    let mut host = AnalysisHost::default();
    host.apply_change(ChangeFixture::parse(fixture).change);
    let mut vfs = Vfs::default();
    for path in paths {
        vfs.set_file_contents(VfsPath::new_real_path(String::from(*path)), Some(Vec::new()));
    }
    Workspace { host, vfs }
}

const SHARED: &str = r#"
//- /src/shared.rs
pub fn shared() {}
//- /src/orphan.rs
pub fn orphan() {}
//- /src/a.rs crate:a cfg:feature=alpha
mod shared;
//- /src/b.rs crate:b cfg:feature=beta,feature=gamma,test
mod shared;
"#;

const SHARED_PATHS: [&str; 4] = ["/src/shared.rs", "/src/orphan.rs", "/src/a.rs", "/src/b.rs"];

#[test]
fn lookup_finds_each_loaded_file() {
    let ws = load(SHARED, &SHARED_PATHS);
    assert_eq!(lookup(&ws.vfs, &abs("/src/shared.rs")).unwrap().index(), 0);
    assert_eq!(lookup(&ws.vfs, &abs("/src/orphan.rs")).unwrap().index(), 1);
    assert_eq!(lookup(&ws.vfs, &abs("/src/b.rs")).unwrap().index(), 3);
}

#[test]
fn lookup_is_stable() {
    let ws = load(SHARED, &SHARED_PATHS);
    let first = lookup(&ws.vfs, &abs("/src/a.rs")).unwrap().index();
    let second = lookup(&ws.vfs, &abs("/src/a.rs")).unwrap().index();
    assert_eq!(first, 2);
    assert_eq!(first, second);
}

#[test]
fn lookup_refuses_a_path_outside_the_roots() {
    let ws = load(SHARED, &SHARED_PATHS);
    let why = lookup(&ws.vfs, &abs("/elsewhere/main.rs")).err().unwrap();
    assert_eq!(why.kind, ErrorKind::UntrackedPath);
    assert_eq!(why.message(), "Missing path in analysis");
}

#[test]
fn lookup_refuses_an_excluded_file() {
    let mut vfs = Vfs::default();
    vfs.set_file_contents(VfsPath::new_real_path(String::from("/src/kept.rs")), Some(Vec::new()));
    vfs.insert_excluded_file(VfsPath::new_real_path(String::from("/src/ignored.rs")));
    assert_eq!(lookup(&vfs, &abs("/src/kept.rs")).unwrap().index(), 0);
    let why = lookup(&vfs, &abs("/src/ignored.rs")).err().unwrap();
    assert_eq!(why.kind, ErrorKind::UntrackedPath);
}

#[test]
fn lookup_refuses_a_deleted_file() {
    let mut vfs = Vfs::default();
    let path = VfsPath::new_real_path(String::from("/src/gone.rs"));
    vfs.set_file_contents(path.clone(), Some(Vec::new()));
    vfs.set_file_contents(path, None);
    let why = lookup(&vfs, &abs("/src/gone.rs")).err().unwrap();
    assert_eq!(why.kind, ErrorKind::UntrackedPath);
}

#[test]
fn accept_decides_on_the_entry() {
    assert_eq!(accept(Some((5, false))).unwrap().index(), 5);
    assert_eq!(accept(Some((5, true))).err().unwrap().kind, ErrorKind::UntrackedPath);
    assert_eq!(accept(None).err().unwrap().kind, ErrorKind::UntrackedPath);
}

#[test]
fn shared_file_belongs_to_both_crates() {
    let ws = load(SHARED, &SHARED_PATHS);
    let file = lookup(&ws.vfs, &abs("/src/shared.rs")).unwrap();
    let infos = crates_for(&ws.host, file).unwrap();
    assert_eq!(infos.len(), 2);
    assert_eq!(infos[0].display_name.as_deref(), Some("a"));
    assert_eq!(infos[0].features, vec![String::from("alpha")]);
    assert_eq!(infos[1].display_name.as_deref(), Some("b"));
    assert_eq!(infos[1].features, vec![String::from("beta"), String::from("gamma")]);
}

#[test]
fn crate_root_belongs_to_its_crate_alone() {
    let ws = load(SHARED, &SHARED_PATHS);
    let file = lookup(&ws.vfs, &abs("/src/a.rs")).unwrap();
    let infos = crates_for(&ws.host, file).unwrap();
    assert_eq!(infos.len(), 1);
    assert_eq!(infos[0].display_name.as_deref(), Some("a"));
}

#[test]
fn orphan_file_has_no_crates() {
    let ws = load(SHARED, &SHARED_PATHS);
    let file = lookup(&ws.vfs, &abs("/src/orphan.rs")).unwrap();
    let infos = crates_for(&ws.host, file).unwrap();
    assert!(infos.is_empty());
    assert_eq!(crate_options(&ws, &abs("/src/orphan.rs")).unwrap(), Vec::<String>::new());
}

#[test]
fn crate_options_prints_one_line_per_crate() {
    let ws = load(SHARED, &SHARED_PATHS);
    let lines = crate_options(&ws, &abs("/src/a.rs")).unwrap();
    assert_eq!(lines, vec![String::from("Some(\"a\"): [\"alpha\"]")]);
    let lines = crate_options(&ws, &abs("/src/shared.rs")).unwrap();
    assert_eq!(
        lines,
        vec![
            String::from("Some(\"a\"): [\"alpha\"]"),
            String::from("Some(\"b\"): [\"beta\", \"gamma\"]"),
        ]
    );
}

#[test]
fn crate_options_refuses_an_untracked_path() {
    let ws = load(SHARED, &SHARED_PATHS);
    let why = crate_options(&ws, &abs("/tmp/other.rs")).err().unwrap();
    assert_eq!(why.kind, ErrorKind::UntrackedPath);
    assert_eq!(why.message(), "Missing path in analysis");
}

#[test]
fn crate_line_quotes_and_separates() {
    let info = CrateInfo {
        display_name: Some(String::from("core")),
        features: vec![String::from("a\"b"), String::from("std"), String::from("x\\y")],
    };
    assert_eq!(crate_line(&info), "Some(\"core\"): [\"a\\\"b\", \"std\", \"x\\\\y\"]");
    let bare = CrateInfo { display_name: None, features: Vec::new() };
    assert_eq!(crate_line(&bare), "None: []");
    assert_eq!(
        crate_lines(&vec![bare, info]),
        vec![
            String::from("None: []"),
            String::from("Some(\"core\"): [\"a\\\"b\", \"std\", \"x\\\\y\"]"),
        ]
    );
}
