use joshuto_mimetype::{ConfigError, EntryMap, JoshutoMimetype, JoshutoMimetypeEntry, JoshutoRawMimetype};

fn entry(program: &str, args: Option<Vec<&str>>, fork: Option<bool>, silent: Option<bool>) -> JoshutoMimetypeEntry {
    JoshutoMimetypeEntry {
        program: program.to_string(),
        args: args.map(|a| a.into_iter().map(|s| s.to_string()).collect()),
        fork,
        silent,
    }
}

fn rendered(e: &JoshutoMimetypeEntry) -> String {
    e.to_display_string()
}

#[test]
fn render_with_args_and_fork_false() {
    let e = entry("vim", Some(vec!["-R"]), Some(false), None);
    assert_eq!(rendered(&e), "vim -R\t[]");
}

#[test]
fn render_fork_and_silent() {
    let e = entry("feh", None, Some(true), Some(true));
    assert_eq!(rendered(&e), "feh\t[fork,silent]");
}

#[test]
fn render_fork_only_keeps_trailing_comma() {
    let e = entry("mpv", None, Some(true), Some(false));
    assert_eq!(rendered(&e), "mpv\t[fork,]");
}

#[test]
fn render_silent_only() {
    let e = entry("zathura", Some(vec!["--fork", "-x"]), None, Some(true));
    assert_eq!(rendered(&e), "zathura --fork -x\t[silent]");
}

#[test]
fn render_empty_argument_list() {
    let e = entry("less", Some(vec![]), None, None);
    assert_eq!(rendered(&e), "less\t[]");
}

#[test]
fn flatten_absent_tables_are_empty() {
    let table = JoshutoRawMimetype::new().flatten();
    assert!(table.lookup_by_mimetype("text/plain").is_none());
    assert!(table.lookup_by_extension("txt").is_none());
}

#[test]
fn flatten_keeps_present_table_and_empties_absent_one() {
    let mut ext = EntryMap::new();
    ext.insert("pdf".to_string(), vec![entry("zathura", None, Some(true), None)]);
    let raw = JoshutoRawMimetype { mimetype: None, extension: Some(ext) };
    let table = raw.flatten();
    assert!(table.lookup_by_mimetype("application/pdf").is_none());
    let found = table.lookup_by_extension("pdf").unwrap();
    assert_eq!(found.len(), 1);
    assert_eq!(found[0].program, "zathura");
}

#[test]
fn missing_file_gives_empty_table() {
    let table = JoshutoMimetype::get_config(Err(ConfigError::FileMissing)).unwrap();
    assert!(table.lookup_by_mimetype("text/plain").is_none());
    assert!(table.lookup_by_extension("txt").is_none());
    assert!(ConfigError::FileMissing.diagnostic().is_none());
    assert!(!ConfigError::FileMissing.is_fatal());
}

#[test]
fn read_and_dir_errors_give_empty_table() {
    let a = JoshutoMimetype::get_config(Err(ConfigError::Read("permission denied".to_string()))).unwrap();
    assert!(a.lookup_by_mimetype("text/plain").is_none());
    let b = JoshutoMimetype::get_config(Err(ConfigError::DirUnavailable("no home".to_string()))).unwrap();
    assert!(b.lookup_by_extension("txt").is_none());
    assert_eq!(ConfigError::Read("permission denied".to_string()).diagnostic().unwrap(), "permission denied");
    assert_eq!(ConfigError::DirUnavailable("no home".to_string()).diagnostic().unwrap(), "no home");
}

#[test]
fn parse_error_is_fatal_with_message() {
    let r = JoshutoMimetype::get_config(Err(ConfigError::Parse("expected `=`".to_string())));
    match r {
        Err(e) => {
            assert!(e.is_fatal());
            assert_eq!(e.diagnostic().unwrap(), "Error parsing mimetype file: expected `=`");
        }
        Ok(_) => panic!("a parse error must not give a table"),
    }
    let empty = ConfigError::Parse(String::new());
    assert!(!empty.diagnostic().unwrap().is_empty());
}

#[test]
fn lookup_single_entry_preserves_fields() {
    let mut m = EntryMap::new();
    m.insert("text/plain".to_string(), vec![entry("vim", Some(vec!["-R"]), Some(false), None)]);
    let raw = JoshutoRawMimetype { mimetype: Some(m), extension: None };
    let table = JoshutoMimetype::get_config(Ok(raw)).unwrap();
    let found = table.lookup_by_mimetype("text/plain").unwrap();
    assert_eq!(found.len(), 1);
    assert_eq!(found[0].program, "vim");
    assert_eq!(found[0].args, Some(vec!["-R".to_string()]));
    assert_eq!(found[0].fork, Some(false));
    assert_eq!(found[0].silent, None);
}

#[test]
fn lookup_keeps_declaration_order() {
    let mut m = EntryMap::new();
    m.insert("text/plain".to_string(), vec![entry("vim", None, None, None), entry("nano", None, None, None)]);
    let table = JoshutoRawMimetype { mimetype: Some(m), extension: None }.flatten();
    let found = table.lookup_by_mimetype("text/plain").unwrap();
    let names: Vec<&str> = found.iter().map(|e| e.program.as_str()).collect();
    assert_eq!(names, vec!["vim", "nano"]);
}

#[test]
fn lookup_absent_key_is_none_and_empty_list_is_some() {
    let mut m = EntryMap::new();
    m.insert("image/png".to_string(), Vec::new());
    let table = JoshutoRawMimetype { mimetype: Some(m), extension: None }.flatten();
    assert!(table.lookup_by_mimetype("text/html").is_none());
    let present = table.lookup_by_mimetype("image/png").unwrap();
    assert!(present.is_empty());
}

#[test]
fn lookup_is_exact_and_case_sensitive() {
    let mut m = EntryMap::new();
    m.insert("pdf".to_string(), vec![entry("zathura", None, None, None)]);
    let table = JoshutoRawMimetype { mimetype: None, extension: Some(m) }.flatten();
    assert!(table.lookup_by_extension("PDF").is_none());
    assert!(table.lookup_by_extension(".pdf").is_none());
    assert!(table.lookup_by_extension("pd").is_none());
    assert!(table.lookup_by_extension("pdf").is_some());
}

#[test]
fn insert_same_key_twice_keeps_last() {
    let mut m = EntryMap::new();
    m.insert("txt".to_string(), vec![entry("vim", None, None, None)]);
    m.insert("md".to_string(), vec![entry("glow", None, None, None)]);
    m.insert("txt".to_string(), vec![entry("nano", None, None, None)]);
    let table = JoshutoRawMimetype { mimetype: None, extension: Some(m) }.flatten();
    let txt = table.lookup_by_extension("txt").unwrap();
    assert_eq!(txt.len(), 1);
    assert_eq!(txt[0].program, "nano");
    assert_eq!(table.lookup_by_extension("md").unwrap()[0].program, "glow");
}

#[test]
fn new_table_is_empty() {
    let table = JoshutoMimetype::new();
    assert!(table.lookup_by_mimetype("").is_none());
    assert!(table.lookup_by_extension("").is_none());
}

#[test]
fn empty_program_is_a_fatal_parse_error() {
    let mut m = EntryMap::new();
    m.insert("text/plain".to_string(), vec![entry("vim", None, None, None), entry("", None, None, None)]);
    let raw = JoshutoRawMimetype { mimetype: Some(m), extension: None };
    match JoshutoMimetype::get_config(Ok(raw)) {
        Err(e) => {
            assert!(matches!(e, ConfigError::Parse(_)));
            assert!(e.is_fatal());
            assert_eq!(e.diagnostic().unwrap(), "Error parsing mimetype file: an entry has an empty program");
        }
        Ok(_) => panic!("an empty program must be rejected"),
    }
}

#[test]
fn empty_program_under_extension_is_rejected() {
    let mut ext = EntryMap::new();
    ext.insert("pdf".to_string(), vec![entry("", Some(vec!["-x"]), None, None)]);
    let raw = JoshutoRawMimetype { mimetype: None, extension: Some(ext) };
    assert!(matches!(JoshutoMimetype::get_config(Ok(raw)), Err(ConfigError::Parse(_))));
}

#[test]
fn all_programs_nonempty_reports_each_case() {
    let mut m = EntryMap::new();
    assert!(m.all_programs_nonempty());
    m.insert("png".to_string(), Vec::new());
    assert!(m.all_programs_nonempty());
    m.insert("jpg".to_string(), vec![entry("feh", None, None, None)]);
    assert!(m.all_programs_nonempty());
    m.insert("gif".to_string(), vec![entry("", None, None, None)]);
    assert!(!m.all_programs_nonempty());
}
