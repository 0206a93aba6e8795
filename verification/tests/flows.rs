//! The flows run to their end against a disk kept in memory.

use dotfiles_rs::readme_template::README_TEXT;
use dotfiles_rs::{
    apply, combine, copy_file, copy_file_resume, install, install_resume, save, save_readme, save_resume, Action,
    Batch, CloneStage, ErrorKind, InstallStage, Step, SyncError, SyncTask,
};
use std::collections::{BTreeMap, BTreeSet};

/// A disk, a log and a set of repositories, all in memory.
#[derive(Default)]
struct Disk {
    files: BTreeMap<String, Vec<u8>>,
    dirs: BTreeSet<String>,
    repositories: BTreeSet<String>,
    remote: BTreeMap<String, Vec<u8>>,
    sealed: Vec<String>,
    log: Vec<String>,
    performed: Vec<Action>,
}

impl Disk {
    fn with_files(files: &[(&str, &str)]) -> Disk {
        let mut disk = Disk::default();
        for (path, text) in files {
            disk.files.insert(path.to_string(), text.as_bytes().to_vec());
        }
        disk
    }

    fn writable(&self, path: &str) -> Result<(), String> {
        if self.sealed.iter().any(|prefix| path.starts_with(prefix.as_str())) {
            Err(format!("Permission denied: {}", path))
        } else {
            Ok(())
        }
    }

    fn perform(&mut self, action: &Action) -> Result<(), String> {
        self.performed.push(action.clone());
        match action {
            Action::CheckFile { path } => {
                if self.files.contains_key(path) {
                    Ok(())
                } else {
                    Err(String::new())
                }
            }
            Action::CheckExists { path } => {
                if self.dirs.contains(path) || self.files.contains_key(path) {
                    Ok(())
                } else {
                    Err(String::new())
                }
            }
            Action::OpenRepository { dir } => {
                if self.repositories.contains(dir) {
                    Ok(())
                } else {
                    Err(format!("not a repository: {}", dir))
                }
            }
            Action::CloneRepository { url, dir, .. } => {
                if url.ends_with("/missing.git") {
                    return Err(format!("remote not found: {}", url));
                }
                self.dirs.insert(dir.clone());
                self.repositories.insert(dir.clone());
                let remote = self.remote.clone();
                for (name, bytes) in remote {
                    self.files.insert(format!("{}/{}", dir, name), bytes);
                }
                Ok(())
            }
            Action::CreateParentDirs { path } => {
                self.writable(path)?;
                if let Some(at) = path.rfind('/') {
                    self.dirs.insert(path[..at].to_string());
                }
                Ok(())
            }
            Action::CopyFile { source, dest } => {
                self.writable(dest)?;
                match self.files.get(source).cloned() {
                    Some(bytes) => {
                        self.files.insert(dest.clone(), bytes);
                        Ok(())
                    }
                    None => Err(format!("No such file: {}", source)),
                }
            }
            Action::WriteFile { path, contents } => {
                self.writable(path)?;
                self.files.insert(path.clone(), contents.as_bytes().to_vec());
                Ok(())
            }
            Action::Log { record } => {
                self.log.push(record.clone());
                Ok(())
            }
        }
    }

    fn copy(&mut self, task: &SyncTask, dry_run: bool) -> Result<u8, SyncError> {
        let mut step = copy_file(task);
        loop {
            match step {
                Step::Finish { result } => return result,
                Step::Perform { stage, action } => {
                    let outcome = self.perform(&action);
                    step = copy_file_resume(task, dry_run, stage, outcome);
                }
            }
        }
    }

    fn batch(&mut self, batch: &Batch) -> Result<Vec<u8>, SyncError> {
        let dry_run = batch.dry_run;
        let results = batch.tasks.iter().map(|task| self.copy(task, dry_run)).collect();
        combine(results)
    }

    fn save(&mut self, names: &[&str], dest: &str, dry_run: bool, home: &str) -> Result<Vec<u8>, SyncError> {
        let list = strings(names);
        let (dest, home) = (dest.to_string(), home.to_string());
        let copied = self.batch(&save(&list, &dest, dry_run, &home));
        let mut step = save_readme(&list, &dest, dry_run, copied.clone());
        loop {
            match step {
                Step::Finish { result } => return result,
                Step::Perform { stage, action } => {
                    let outcome = self.perform(&action);
                    step = save_resume(copied.clone(), stage, outcome);
                }
            }
        }
    }

    fn apply(&mut self, names: &[&str], dir: &str, dry_run: bool, home: &str) -> Result<Vec<u8>, SyncError> {
        let batch = apply(&strings(names), &dir.to_string(), dry_run, &home.to_string());
        self.batch(&batch)
    }

    fn install(
        &mut self,
        names: &[&str],
        url: &str,
        key: &str,
        dry_run: bool,
        home: &str,
    ) -> Result<Vec<u8>, SyncError> {
        let list = strings(names);
        let (url, key, home) = (url.to_string(), key.to_string(), home.to_string());
        let mut step = install(&url, &home);
        loop {
            match step {
                Step::Finish { result } => return self.batch(&result?),
                Step::Perform { stage, action } => {
                    let outcome = self.perform(&action);
                    step = install_resume(&list, &url, &key, dry_run, &home, stage, outcome);
                }
            }
        }
    }

    fn text(&self, path: &str) -> Option<String> {
        self.files.get(path).map(|bytes| String::from_utf8(bytes.clone()).unwrap())
    }

    fn cloned(&self) -> bool {
        self.performed.iter().any(|action| matches!(action, Action::CloneRepository { .. }))
    }
}

fn strings(names: &[&str]) -> Vec<String> {
    names.iter().map(|name| name.to_string()).collect()
}

const URL: &str = "git@github.com:someone/dotfiles.git";

#[test]
fn save_copies_the_listed_files_and_writes_the_readme() {
    let mut disk = Disk::with_files(&[("/home/u/.bashrc", "alias ll='ls -l'\n"), ("/home/u/.vimrc", "set nu\n")]);
    let outcome = disk.save(&[".bashrc", ".vimrc"], "/tmp/out", false, "/home/u");
    assert_eq!(outcome, Ok(vec![0, 0]));
    assert_eq!(disk.text("/tmp/out/.bashrc").as_deref(), Some("alias ll='ls -l'\n"));
    assert_eq!(disk.text("/tmp/out/.vimrc").as_deref(), Some("set nu\n"));
    assert_eq!(disk.text("/tmp/out/README.md").as_deref(), Some(README_TEXT));
    assert!(README_TEXT.contains("dotfiles-rs"));
    assert_eq!(
        disk.log,
        vec![
            "[Shell] Copied /home/u/.bashrc to /tmp/out/.bashrc".to_string(),
            "[Shell] Copied /home/u/.vimrc to /tmp/out/.vimrc".to_string(),
        ]
    );
}

#[test]
fn save_of_a_missing_file_names_it_and_creates_no_file() {
    let mut disk = Disk::default();
    let outcome = disk.save(&[".absent"], "/tmp/out", false, "/home/u");
    let error = outcome.unwrap_err();
    assert_eq!(error.kind, ErrorKind::NotFound);
    assert_eq!(error.detail, "/home/u/.absent");
    assert_eq!(error.message(), "File not found: /home/u/.absent");
    assert!(error.message().contains(".absent"));
    assert!(disk.files.is_empty());
    assert!(disk.dirs.is_empty());
    assert!(disk.log.is_empty());
}

#[test]
fn dry_save_of_a_missing_file_creates_no_file_at_all() {
    let mut disk = Disk::default();
    let outcome = disk.save(&[".absent"], "/tmp/out", true, "/home/u");
    assert_eq!(outcome.unwrap_err().message(), "File not found: /home/u/.absent");
    assert!(disk.files.is_empty());
    assert!(disk.dirs.is_empty());
}

#[test]
fn a_missing_file_is_not_skipped_among_present_ones() {
    let mut disk = Disk::with_files(&[("/h/a", "A"), ("/h/c", "C")]);
    let outcome = disk.save(&["a", "b", "c", "d"], "/out", false, "/h");
    assert_eq!(outcome, Err(SyncError { kind: ErrorKind::NotFound, detail: "/h/b".to_string() }));
    // The other copies have run: nothing is rolled back.
    assert_eq!(disk.text("/out/a").as_deref(), Some("A"));
    assert_eq!(disk.text("/out/c").as_deref(), Some("C"));
    assert_eq!(disk.text("/out/b"), None);
    // The readme is written only after a batch that succeeded.
    assert_eq!(disk.text("/out/README.md"), None);
}

#[test]
fn save_then_apply_restores_the_files() {
    let mut disk = Disk::with_files(&[("/home/u/.bashrc", "one"), ("/home/u/.config/nvim/init.vim", "two")]);
    let names = [".bashrc", ".config/nvim/init.vim"];
    assert_eq!(disk.save(&names, "/backup", false, "/home/u"), Ok(vec![0, 0]));
    assert_eq!(disk.apply(&names, "/backup", false, "/home/fresh"), Ok(vec![0, 0]));
    assert_eq!(disk.text("/home/fresh/.bashrc").as_deref(), Some("one"));
    assert_eq!(disk.text("/home/fresh/.config/nvim/init.vim").as_deref(), Some("two"));
    assert!(disk.dirs.contains("/home/fresh/.config/nvim"));
    // Once more: the copy is idempotent.
    let before = disk.files.clone();
    assert_eq!(disk.apply(&names, "/backup", false, "/home/fresh"), Ok(vec![0, 0]));
    assert_eq!(disk.files, before);
}

#[test]
fn dry_run_writes_no_file_and_reports_every_entry() {
    let mut disk = Disk::with_files(&[("/h/.bashrc", "one"), ("/h/.vimrc", "two")]);
    let before = disk.files.clone();
    assert_eq!(disk.save(&[".bashrc", ".vimrc"], "/out", true, "/h"), Ok(vec![0, 0]));
    assert_eq!(disk.files, before);
    assert_eq!(
        disk.log,
        vec![
            "[Dry run] Copied /h/.bashrc to /out/.bashrc".to_string(),
            "[Dry run] Copied /h/.vimrc to /out/.vimrc".to_string(),
        ]
    );
    assert!(disk.dirs.is_empty());
    assert!(disk.performed.iter().all(|action| !matches!(
        action,
        Action::CopyFile { .. } | Action::WriteFile { .. } | Action::CreateParentDirs { .. }
    )));
    assert_eq!(disk.apply(&[".bashrc"], "/h", true, "/other"), Ok(vec![0]));
    assert_eq!(disk.files, before);
}

#[test]
fn dry_run_creates_no_directory() {
    let mut disk = Disk::with_files(&[("/h/.ssh/config", "Host *")]);
    assert_eq!(disk.save(&[".ssh/config"], "/out", true, "/h"), Ok(vec![0]));
    assert!(disk.dirs.is_empty());
    assert_eq!(disk.text("/out/.ssh/config"), None);
    assert_eq!(disk.log, vec!["[Dry run] Copied /h/.ssh/config to /out/.ssh/config".to_string()]);
    assert_eq!(
        disk.performed,
        vec![
            Action::CheckFile { path: "/h/.ssh/config".to_string() },
            Action::Log { record: "[Dry run] Copied /h/.ssh/config to /out/.ssh/config".to_string() },
        ]
    );
}

#[test]
fn real_run_creates_the_directories_above_the_destination() {
    let mut disk = Disk::with_files(&[("/h/.ssh/config", "Host *")]);
    assert_eq!(disk.save(&[".ssh/config"], "/out", false, "/h"), Ok(vec![0]));
    assert!(disk.dirs.contains("/out/.ssh"));
    assert_eq!(disk.text("/out/.ssh/config").as_deref(), Some("Host *"));
}

#[test]
fn dry_install_from_an_existing_clone_changes_nothing() {
    let mut disk = Disk::with_files(&[("/h/dotfiles/.config/a", "one"), ("/h/dotfiles/b", "two")]);
    disk.dirs.insert("/h/dotfiles".to_string());
    disk.repositories.insert("/h/dotfiles".to_string());
    let (files, dirs) = (disk.files.clone(), disk.dirs.clone());
    assert_eq!(disk.install(&[".config/a", "b"], URL, "/k/id_rsa", true, "/h"), Ok(vec![0, 0]));
    assert_eq!(disk.files, files);
    assert_eq!(disk.dirs, dirs);
    assert_eq!(
        disk.log,
        vec![
            "[Dry run] Copied /h/dotfiles/.config/a to /h/.config/a".to_string(),
            "[Dry run] Copied /h/dotfiles/b to /h/b".to_string(),
        ]
    );
}

#[test]
fn installing_again_changes_nothing() {
    let mut disk = Disk::with_files(&[("/d/.config/a", "one"), ("/d/b", "two")]);
    let names = [".config/a", "b", "missing"];
    let first = disk.apply(&names, "/d", false, "/h");
    let (files, dirs) = (disk.files.clone(), disk.dirs.clone());
    assert_eq!(disk.apply(&names, "/d", false, "/h"), first);
    assert_eq!(disk.files, files);
    assert_eq!(disk.dirs, dirs);
}

#[test]
fn empty_manifest_succeeds_with_no_copy() {
    let mut disk = Disk::default();
    assert_eq!(disk.save(&[], "/out", true, "/h"), Ok(vec![]));
    assert!(disk.performed.is_empty());
    assert_eq!(disk.save(&[], "/out", false, "/h"), Ok(vec![]));
    assert_eq!(disk.files.len(), 1);
    assert_eq!(disk.apply(&[], "/out", false, "/h"), Ok(vec![]));
}

#[test]
fn unwritable_destination_surfaces_the_reason() {
    let mut disk = Disk::with_files(&[("/h/.bashrc", "one")]);
    disk.sealed.push("/sealed".to_string());
    let outcome = disk.apply(&[".bashrc"], "/h", false, "/sealed");
    assert_eq!(
        outcome,
        Err(SyncError { kind: ErrorKind::Io, detail: "Permission denied: /sealed/.bashrc".to_string() })
    );
    let outcome = disk.save(&[".bashrc"], "/sealed", false, "/h");
    assert_eq!(
        outcome,
        Err(SyncError { kind: ErrorKind::Io, detail: "Permission denied: /sealed/.bashrc".to_string() })
    );
}

#[test]
fn unwritable_readme_fails_the_save_after_its_copies() {
    let mut disk = Disk::with_files(&[("/h/.bashrc", "one")]);
    disk.sealed.push("/out/README".to_string());
    let outcome = disk.save(&[".bashrc"], "/out", false, "/h");
    assert_eq!(
        outcome,
        Err(SyncError { kind: ErrorKind::Io, detail: "Permission denied: /out/README.md".to_string() })
    );
    assert_eq!(outcome.unwrap_err().message(), "Permission denied: /out/README.md");
    assert_eq!(disk.text("/out/.bashrc").as_deref(), Some("one"));
}

#[test]
fn a_listed_readme_takes_the_place_of_the_template() {
    let mut disk = Disk::with_files(&[("/h/README.md", "mine"), ("/h/.bashrc", "one")]);
    let names = ["README.md", ".bashrc"];
    assert_eq!(disk.save(&names, "/out", false, "/h"), Ok(vec![0, 0]));
    assert_eq!(disk.text("/out/README.md").as_deref(), Some("mine"));
    assert_eq!(disk.text("/out/.bashrc").as_deref(), Some("one"));
    assert!(disk.performed.iter().all(|action| !matches!(action, Action::WriteFile { .. })));
    // The round trip gives the file back, not the template.
    assert_eq!(disk.apply(&names, "/out", false, "/fresh"), Ok(vec![0, 0]));
    assert_eq!(disk.text("/fresh/README.md").as_deref(), Some("mine"));
    assert_eq!(disk.text("/fresh/.bashrc").as_deref(), Some("one"));
    assert_eq!(disk.text("/out/README.md").as_deref(), Some("mine"));
}

#[test]
fn a_file_saved_onto_another_listed_file_disturbs_its_copy() {
    // The folder lies inside the home directory, and "x" is saved onto "a/x".
    let mut disk = Disk::with_files(&[("/h/x", "outer"), ("/h/a/x", "inner")]);
    assert_eq!(disk.save(&["x", "a/x"], "/h/a", false, "/h"), Ok(vec![0, 0]));
    assert_eq!(disk.text("/h/a/x").as_deref(), Some("outer"));
    assert_eq!(disk.text("/h/a/a/x").as_deref(), Some("outer"));
}

#[test]
fn copy_onto_itself_is_harmless() {
    let mut disk = Disk::with_files(&[("/h/.bashrc", "one")]);
    assert_eq!(disk.apply(&[".bashrc", ".bashrc"], "/h", false, "/h"), Ok(vec![0, 0]));
    assert_eq!(disk.text("/h/.bashrc").as_deref(), Some("one"));
    assert_eq!(disk.files.len(), 1);
    // The file is never asked to be copied onto itself.
    assert!(disk.performed.iter().all(|action| !matches!(action, Action::CopyFile { .. })));
    assert_eq!(disk.log.len(), 2);
}

#[test]
fn install_refuses_other_protocols_without_any_action() {
    for url in ["https://github.com/someone/dotfiles.git", "", "git@github.co", "ssh://git@github.com/x.git"] {
        let mut disk = Disk::with_files(&[("/k/id_rsa", "key"), ("/k/id_rsa.pub", "pub")]);
        let error = disk.install(&[".bashrc"], url, "/k/id_rsa", false, "/h").unwrap_err();
        assert_eq!(error.kind, ErrorKind::UnsupportedProtocol);
        assert_eq!(
            error.message(),
            "We only support ssh-key cloning, which the github url should start with git@github.com prefix"
        );
        assert!(disk.performed.is_empty());
    }
}

#[test]
fn install_refuses_other_protocols_at_every_stage() {
    let url = "https://github.com/someone/dotfiles.git".to_string();
    let (key, home) = ("/k/id_rsa".to_string(), "/h".to_string());
    for stage in [
        InstallStage::Locate,
        InstallStage::Open,
        InstallStage::Clone(CloneStage::PublicKey),
        InstallStage::Clone(CloneStage::PrivateKey),
        InstallStage::Clone(CloneStage::Clone),
    ] {
        for outcome in [Ok(()), Err("no".to_string())] {
            let step = install_resume(&strings(&["a"]), &url, &key, false, &home, stage, outcome);
            match step {
                Step::Finish { result: Err(e) } => assert_eq!(e.kind, ErrorKind::UnsupportedProtocol),
                other => panic!("{:?}", other),
            }
        }
    }
}

#[test]
fn install_from_an_existing_clone_does_not_clone() {
    let mut disk = Disk::with_files(&[("/h/dotfiles/.bashrc", "one")]);
    disk.dirs.insert("/h/dotfiles".to_string());
    disk.repositories.insert("/h/dotfiles".to_string());
    assert_eq!(disk.install(&[".bashrc"], URL, "/k/id_rsa", false, "/h"), Ok(vec![0]));
    assert!(!disk.cloned());
    assert_eq!(disk.text("/h/.bashrc").as_deref(), Some("one"));
    assert_eq!(
        disk.performed[..2],
        [
            Action::CheckExists { path: "/h/dotfiles".to_string() },
            Action::OpenRepository { dir: "/h/dotfiles".to_string() },
        ]
    );
    assert_eq!(disk.performed[2], Action::CheckFile { path: "/h/dotfiles/.bashrc".to_string() });
}

#[test]
fn install_from_a_folder_that_is_no_repository_fails() {
    let mut disk = Disk::default();
    disk.dirs.insert("/h/dotfiles".to_string());
    let error = disk.install(&[".bashrc"], URL, "/k/id_rsa", false, "/h").unwrap_err();
    assert_eq!(error, SyncError { kind: ErrorKind::CorruptRepository, detail: "/h/dotfiles".to_string() });
    assert_eq!(error.message(), "Not a valid repository: /h/dotfiles");
    assert!(!disk.cloned());
}

#[test]
fn install_clones_with_the_key_pair_when_there_is_no_clone() {
    let mut disk = Disk::with_files(&[("/k/id_rsa", "key"), ("/k/id_rsa.pub", "pub")]);
    disk.remote.insert(".bashrc".to_string(), b"remote".to_vec());
    assert_eq!(disk.install(&[".bashrc"], URL, "/k/id_rsa", false, "/h"), Ok(vec![0]));
    assert_eq!(
        disk.performed[..4],
        [
            Action::CheckExists { path: "/h/dotfiles".to_string() },
            Action::CheckFile { path: "/k/id_rsa.pub".to_string() },
            Action::CheckFile { path: "/k/id_rsa".to_string() },
            Action::CloneRepository {
                url: URL.to_string(),
                dir: "/h/dotfiles".to_string(),
                public_key: "/k/id_rsa.pub".to_string(),
                private_key: "/k/id_rsa".to_string(),
            },
        ]
    );
    assert_eq!(disk.text("/h/.bashrc").as_deref(), Some("remote"));
}

#[test]
fn install_needs_both_key_files_before_it_clones() {
    let mut disk = Disk::with_files(&[("/k/id_rsa", "key")]);
    let error = disk.install(&[".bashrc"], URL, "/k/id_rsa", false, "/h").unwrap_err();
    assert_eq!(error, SyncError { kind: ErrorKind::NotFound, detail: "/k/id_rsa.pub".to_string() });
    assert!(!disk.cloned());

    let mut disk = Disk::with_files(&[("/k/id_rsa.pub", "pub")]);
    let error = disk.install(&[".bashrc"], URL, "/k/id_rsa", false, "/h").unwrap_err();
    assert_eq!(error, SyncError { kind: ErrorKind::NotFound, detail: "/k/id_rsa".to_string() });
    assert_eq!(error.message(), "File not found: /k/id_rsa");
    assert!(!disk.cloned());
}

#[test]
fn install_surfaces_a_failed_clone() {
    let mut disk = Disk::with_files(&[("/k/id_rsa", "key"), ("/k/id_rsa.pub", "pub")]);
    let url = "git@github.com:someone/missing.git";
    let error = disk.install(&[".bashrc"], url, "/k/id_rsa", false, "/h").unwrap_err();
    assert_eq!(
        error,
        SyncError { kind: ErrorKind::Clone, detail: format!("remote not found: {}", url) }
    );
    assert!(disk.files.get("/h/.bashrc").is_none());
}

#[test]
fn combine_reports_the_first_failure_in_manifest_order() {
    let first = SyncError { kind: ErrorKind::NotFound, detail: "a".to_string() };
    let second = SyncError { kind: ErrorKind::Io, detail: "b".to_string() };
    assert_eq!(combine(vec![]), Ok(vec![]));
    assert_eq!(combine(vec![Ok(0), Ok(0), Ok(0)]), Ok(vec![0, 0, 0]));
    assert_eq!(combine(vec![Ok(3), Ok(7)]), Ok(vec![3, 7]));
    assert_eq!(combine(vec![Ok(0), Err(first.clone()), Err(second.clone())]), Err(first.clone()));
    assert_eq!(combine(vec![Err(second.clone()), Ok(0), Err(first)]), Err(second));
}
