use trascri::{archive_layout, ArchiveError, RemoteModel};

fn names(ns: &[&str]) -> Vec<String> {
    ns.iter().map(|n| n.to_string()).collect()
}

#[test]
fn entries_are_laid_out_below_the_root_folder() {
    let layout = archive_layout(&names(&[
        "vosk-model-small-en-us-0.15/",
        "vosk-model-small-en-us-0.15/am/",
        "vosk-model-small-en-us-0.15/am/final.mdl",
        "vosk-model-small-en-us-0.15/README",
    ]));
    assert_eq!(layout, Ok(names(&["am/", "am/final.mdl", "README"])));
}

#[test]
fn archive_with_root_only_has_nothing_to_lay_out() {
    assert_eq!(archive_layout(&names(&["model/"])), Ok(vec![]));
}

#[test]
fn empty_archive_is_refused() {
    assert_eq!(archive_layout(&names(&[])), Err(ArchiveError::Empty));
}

#[test]
fn entry_outside_root_is_refused() {
    let layout = archive_layout(&names(&["model/", "model/a", "other/b", "elsewhere"]));
    assert_eq!(layout, Err(ArchiveError::OutsideRoot(2)));
}

#[test]
fn remote_model_holds_its_name_and_address() {
    let m = RemoteModel { name: "en".to_string(), url: "https://example.org/en.zip".to_string() };
    assert_eq!(m.clone(), m);
}
