use std::path::Path;
use tempfile::TempDir;
use vimvar::search::{candidate_paths, find_vimrc_impl, first_marked, Platform};

fn make_dir(parent: &Path, name: &str) -> TempDir {
    tempfile::Builder::new()
        .prefix(name)
        .rand_bytes(0)
        .tempdir_in(parent)
        .unwrap()
}

fn make_file(parent: &Path, name: &str) -> String {
    let file = tempfile::Builder::new()
        .prefix(name)
        .rand_bytes(0)
        .disable_cleanup(true)
        .tempfile_in(parent)
        .unwrap();
    file.path().to_str().unwrap().to_string()
}

fn path_string(dir: &TempDir) -> String {
    dir.path().to_str().unwrap().to_string()
}

/// Fresh, empty stand-ins for the environment values, so that a test never
/// touches real user state.
fn empty_env() -> (TempDir, TempDir, TempDir) {
    (
        tempfile::tempdir().unwrap(),
        tempfile::tempdir().unwrap(),
        tempfile::tempdir().unwrap(),
    )
}

#[test]
fn find_vimrc_on_unix_should_succeed_if_available_at_home_config_nvim_init_lua() {
    let (xdg, home, _vim) = empty_env();
    let cfg = make_dir(home.path(), ".config");
    let nvim = make_dir(cfg.path(), "nvim");
    let file = make_file(nvim.path(), "init.lua");
    let r = find_vimrc_impl(Platform::Unix, Some(path_string(&xdg)), path_string(&home), None);
    assert_eq!(r, Some(file));
}

#[test]
fn find_vimrc_on_unix_should_succeed_if_available_at_home_config_nvim_init_vim() {
    let (xdg, home, _vim) = empty_env();
    let cfg = make_dir(home.path(), ".config");
    let nvim = make_dir(cfg.path(), "nvim");
    let file = make_file(nvim.path(), "init.vim");
    let r = find_vimrc_impl(Platform::Unix, Some(path_string(&xdg)), path_string(&home), None);
    assert_eq!(r, Some(file));
}

#[test]
fn find_vimrc_on_unix_should_succeed_if_available_at_home_vimrc() {
    let (xdg, home, _vim) = empty_env();
    let file = make_file(home.path(), ".vimrc");
    let r = find_vimrc_impl(Platform::Unix, Some(path_string(&xdg)), path_string(&home), None);
    assert_eq!(r, Some(file));
}

#[test]
fn find_vimrc_on_unix_should_succeed_if_available_at_home_vim_vimrc() {
    let (xdg, home, _vim) = empty_env();
    let vdir = make_dir(home.path(), ".vim");
    let file = make_file(vdir.path(), "vimrc");
    let r = find_vimrc_impl(Platform::Unix, Some(path_string(&xdg)), path_string(&home), None);
    assert_eq!(r, Some(file));
}

#[test]
fn find_vimrc_on_windows_should_succeed_if_available_at_home_appdata_local_nvim_init_lua() {
    let (xdg, home, vim) = empty_env();
    let app = make_dir(home.path(), "AppData");
    let local = make_dir(app.path(), "Local");
    let nvim = make_dir(local.path(), "nvim");
    let file = make_file(nvim.path(), "init.lua");
    let r = find_vimrc_impl(
        Platform::Windows,
        Some(path_string(&xdg)),
        path_string(&home),
        Some(path_string(&vim)),
    );
    assert_eq!(r, Some(file));
}

#[test]
fn find_vimrc_on_windows_should_succeed_if_available_at_home_appdata_local_nvim_init_vim() {
    let (xdg, home, vim) = empty_env();
    let app = make_dir(home.path(), "AppData");
    let local = make_dir(app.path(), "Local");
    let nvim = make_dir(local.path(), "nvim");
    let file = make_file(nvim.path(), "init.vim");
    let r = find_vimrc_impl(
        Platform::Windows,
        Some(path_string(&xdg)),
        path_string(&home),
        Some(path_string(&vim)),
    );
    assert_eq!(r, Some(file));
}

#[test]
fn find_vimrc_on_windows_should_succeed_if_available_at_home_vimrc() {
    let (xdg, home, vim) = empty_env();
    let file = make_file(home.path(), "_vimrc");
    let r = find_vimrc_impl(
        Platform::Windows,
        Some(path_string(&xdg)),
        path_string(&home),
        Some(path_string(&vim)),
    );
    assert_eq!(r, Some(file));
}

#[test]
fn find_vimrc_on_windows_should_succeed_if_available_at_home_vimfiles_vimrc() {
    let (xdg, home, vim) = empty_env();
    let vf = make_dir(home.path(), "vimfiles");
    let file = make_file(vf.path(), "vimrc");
    let r = find_vimrc_impl(
        Platform::Windows,
        Some(path_string(&xdg)),
        path_string(&home),
        Some(path_string(&vim)),
    );
    assert_eq!(r, Some(file));
}

#[test]
fn find_vimrc_on_windows_should_succeed_if_available_at_vimenv_vimrc() {
    let (xdg, home, vim) = empty_env();
    let file = make_file(vim.path(), "_vimrc");
    let r = find_vimrc_impl(
        Platform::Windows,
        Some(path_string(&xdg)),
        path_string(&home),
        Some(path_string(&vim)),
    );
    assert_eq!(r, Some(file));
}

#[test]
fn find_vimrc_should_succeed_if_available_at_xdg_nvim_init_lua() {
    let (xdg, home, _vim) = empty_env();
    let nvim = make_dir(xdg.path(), "nvim");
    let file = make_file(nvim.path(), "init.lua");
    let r = find_vimrc_impl(Platform::Unix, Some(path_string(&xdg)), path_string(&home), None);
    assert_eq!(r, Some(file));
}

#[test]
fn find_vimrc_should_succeed_if_available_at_xdg_nvim_init_vim() {
    let (xdg, home, _vim) = empty_env();
    let nvim = make_dir(xdg.path(), "nvim");
    let file = make_file(nvim.path(), "init.vim");
    let r = find_vimrc_impl(Platform::Unix, Some(path_string(&xdg)), path_string(&home), None);
    assert_eq!(r, Some(file));
}

#[test]
fn earlier_existing_candidate_wins() {
    let (xdg, home, _vim) = empty_env();
    let early = make_file(home.path(), ".vimrc");
    let vdir = make_dir(home.path(), ".vim");
    let _late = make_file(vdir.path(), "vimrc");
    let r = find_vimrc_impl(Platform::Unix, Some(path_string(&xdg)), path_string(&home), None);
    assert_eq!(r, Some(early));
}

#[test]
fn missing_earlier_candidates_are_ignored() {
    let (xdg, home, _vim) = empty_env();
    let vdir = make_dir(home.path(), ".vim");
    let last = make_file(vdir.path(), "vimrc");
    let r = find_vimrc_impl(Platform::Unix, Some(path_string(&xdg)), path_string(&home), None);
    assert_eq!(r, Some(last));
}

#[test]
fn unset_variable_skips_its_candidates_without_aborting() {
    let (_xdg, home, _vim) = empty_env();
    let file = make_file(home.path(), ".vimrc");
    let r = find_vimrc_impl(Platform::Unix, None, path_string(&home), None);
    assert_eq!(r, Some(file));
}

#[test]
fn nothing_found_is_absence_not_an_error() {
    let (xdg, home, vim) = empty_env();
    let r = find_vimrc_impl(
        Platform::Windows,
        Some(path_string(&xdg)),
        path_string(&home),
        Some(path_string(&vim)),
    );
    assert_eq!(r, None);
    let r = find_vimrc_impl(Platform::Other, None, path_string(&home), None);
    assert_eq!(r, None);
}

#[test]
fn candidate_list_order_on_unix() {
    let cands = candidate_paths(
        Platform::Unix,
        &Some(String::from("/x")),
        "/h",
        &None,
    );
    assert_eq!(
        cands,
        vec![
            String::from("/x/nvim/init.lua"),
            String::from("/x/nvim/init.vim"),
            String::from("/h/.config/nvim/init.lua"),
            String::from("/h/.config/nvim/init.vim"),
            String::from("/h/.vimrc"),
            String::from("/h/.vim/vimrc"),
        ]
    );
}

#[test]
fn candidate_list_order_on_windows() {
    let cands = candidate_paths(
        Platform::Windows,
        &None,
        "/h",
        &Some(String::from("/v")),
    );
    assert_eq!(
        cands,
        vec![
            String::from("/h/AppData/Local/nvim/init.lua"),
            String::from("/h/AppData/Local/nvim/init.vim"),
            String::from("/h/_vimrc"),
            String::from("/h/vimfiles/vimrc"),
            String::from("/v/_vimrc"),
        ]
    );
}

#[test]
fn candidate_list_on_other_platforms_has_only_xdg_entries() {
    let cands = candidate_paths(Platform::Other, &Some(String::from("/x")), "/h", &None);
    assert_eq!(
        cands,
        vec![
            String::from("/x/nvim/init.lua"),
            String::from("/x/nvim/init.vim"),
        ]
    );
    let none = candidate_paths(Platform::Other, &None, "/h", &None);
    assert_eq!(none, Vec::<String>::new());
}

#[test]
fn first_marked_returns_first_true_index() {
    assert_eq!(first_marked(&vec![false, true, true]), Some(1));
    assert_eq!(first_marked(&vec![true]), Some(0));
    assert_eq!(first_marked(&vec![false, false]), None);
    assert_eq!(first_marked(&Vec::new()), None);
}

#[test]
fn find_vimrc_respects_its_candidate_shape() {
    // Whatever the real environment holds, a found path on the Other
    // platform family can only be one of the two explicit-directory
    // candidates.
    match vimvar::search::find_vimrc(Platform::Other) {
        Some(p) => {
            assert!(p.ends_with("/nvim/init.lua") || p.ends_with("/nvim/init.vim"));
        }
        None => {}
    }
}
