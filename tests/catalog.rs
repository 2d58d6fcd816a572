use rrclone::drive::{decode_token, parse_config, ConfigError, DriveStruct, TokenStruct};
use rrclone::list::StatefulList;

fn token() -> TokenStruct {
    TokenStruct {
        access_token: String::from("ya29.a0"),
        token_type: String::from("Bearer"),
        refresh_token: String::from("1//0g"),
        expiry: String::from("2023-03-01T12:34:56.789+01:00"),
    }
}

fn drive(name: &str) -> DriveStruct {
    DriveStruct {
        name: String::from(name),
        drive_type: String::from("drive"),
        scope: String::from("drive"),
        token: token(),
    }
}

fn lines(text: &str) -> Vec<String> {
    text.lines().map(|l| l.to_string()).collect()
}

const TOKEN_LINE: &str = "token = {\"access_token\":\"ya29.a0\",\"token_type\":\"Bearer\",\"refresh_token\":\"1//0g\",\"expiry\":\"2023-03-01T12:34:56.789+01:00\"}";

#[test]
fn list_starts_on_first_item() {
    let l = StatefulList::with_items(&vec![drive("work"), drive("personal")]);
    assert_eq!(l.selected(), Some(0));
    assert_eq!(l.items().len(), 2);
    assert_eq!(l.selected_item().unwrap().name, "work");
}

#[test]
fn empty_list_has_no_cursor() {
    let mut l: StatefulList<DriveStruct> = StatefulList::with_items(&vec![]);
    assert_eq!(l.selected(), None);
    l.next();
    assert_eq!(l.selected(), None);
    l.previous();
    assert_eq!(l.selected(), None);
    assert!(l.selected_item().is_none());
}

#[test]
fn next_wraps_to_first() {
    let mut l = StatefulList::with_items(&vec![1u32, 2, 3]);
    l.next();
    assert_eq!(l.selected(), Some(1));
    l.next();
    assert_eq!(l.selected(), Some(2));
    l.next();
    assert_eq!(l.selected(), Some(0));
}

#[test]
fn previous_wraps_to_last() {
    let mut l = StatefulList::with_items(&vec![1u32, 2, 3]);
    l.previous();
    assert_eq!(l.selected(), Some(2));
    l.previous();
    assert_eq!(l.selected(), Some(1));
}

#[test]
fn n_moves_return_cursor_to_start() {
    let n = 5;
    let mut l = StatefulList::with_items(&vec![0u32; n]);
    l.next();
    l.next();
    let start = l.selected();
    for _ in 0..n {
        l.next();
    }
    assert_eq!(l.selected(), start);
    for _ in 0..n {
        l.previous();
    }
    assert_eq!(l.selected(), start);
}

#[test]
fn parses_two_drives() {
    let text = format!(
        "[work]\ntype = drive\nscope = drive\n{}\n\n[personal]\ntype = drive\nscope = drive.readonly\n{}\n\n",
        TOKEN_LINE, TOKEN_LINE
    );
    let c = parse_config(String::from("/home/u/.config/rclone/rclone.conf"), &lines(&text)).unwrap();
    assert_eq!(c.path, "/home/u/.config/rclone/rclone.conf");
    assert_eq!(c.drives.len(), 2);
    assert_eq!(c.drives[0].name, "work");
    assert_eq!(c.drives[0].drive_type, "drive");
    assert_eq!(c.drives[0].scope, "drive");
    assert_eq!(c.drives[1].name, "personal");
    assert_eq!(c.drives[1].scope, "drive.readonly");
    assert_eq!(c.drives[1].token.access_token, "ya29.a0");
    assert_eq!(c.drives[1].token.token_type, "Bearer");
    assert_eq!(c.drives[1].token.refresh_token, "1//0g");
    assert_eq!(c.drives[1].token.expiry, "2023-03-01T12:34:56.789+01:00");
}

#[test]
fn last_section_closes_at_end() {
    let text = format!("[work]\ntype = drive\n{}\n\n[other]\ntype = s3\n{}", TOKEN_LINE, TOKEN_LINE);
    let c = parse_config(String::new(), &lines(&text)).unwrap();
    assert_eq!(c.drives.len(), 2);
    assert_eq!(c.drives[1].name, "other");
    assert_eq!(c.drives[1].drive_type, "s3");
}

#[test]
fn extra_blank_lines_add_no_drive() {
    let text = format!("\n\n[work]\ntype = drive\n{}\n\n\n\n[personal]\n{}\n\n\n", TOKEN_LINE, TOKEN_LINE);
    let c = parse_config(String::new(), &lines(&text)).unwrap();
    let names: Vec<&str> = c.drives.iter().map(|d| d.name.as_str()).collect();
    assert_eq!(names, vec!["work", "personal"]);
}

#[test]
fn header_closes_previous_section() {
    let text = format!("[work]\n{}\n[personal]\nscope = drive\n{}\n", TOKEN_LINE, TOKEN_LINE);
    let c = parse_config(String::new(), &lines(&text)).unwrap();
    assert_eq!(c.drives.len(), 2);
    assert_eq!(c.drives[0].scope, "");
    assert_eq!(c.drives[1].scope, "drive");
}

#[test]
fn token_is_not_inherited_from_previous_section() {
    let text = format!("[work]\ntype = drive\n{}\n\n[personal]\ntype = drive\n\n", TOKEN_LINE);
    assert_eq!(parse_config(String::new(), &lines(&text)).err(), Some(ConfigError::MissingToken));
}

#[test]
fn lines_outside_sections_are_skipped() {
    let text = format!("token = {{broken\n\n[work]\n{}\n", TOKEN_LINE);
    let c = parse_config(String::new(), &lines(&text)).unwrap();
    assert_eq!(c.drives.len(), 1);
}

#[test]
fn one_section_catalog() {
    let text = "[work]\ntype = drive\nscope = drive\ntoken = {\"access_token\":\"a\",\"token_type\":\"Bearer\",\"refresh_token\":\"r\",\"expiry\":\"2023-01-02T03:04:05Z\"}\n\n";
    let c = parse_config(String::from("p"), &lines(text)).unwrap();
    assert_eq!(c.drives.len(), 1);
    let d = &c.drives[0];
    assert_eq!((d.name.as_str(), d.drive_type.as_str(), d.scope.as_str()), ("work", "drive", "drive"));
    assert_eq!(d.token.access_token, "a");
    assert_eq!(d.token.token_type, "Bearer");
    assert_eq!(d.token.refresh_token, "r");
    assert_eq!(d.token.expiry, "2023-01-02T03:04:05+00:00");
}

#[test]
fn empty_catalog_has_no_drives() {
    let c = parse_config(String::new(), &Vec::new()).unwrap();
    assert!(c.drives.is_empty());
}

#[test]
fn drive_without_token_is_refused() {
    let text = "[work]\ntype = drive\n\n";
    assert_eq!(parse_config(String::new(), &lines(text)).err(), Some(ConfigError::MissingToken));
}

#[test]
fn token_that_is_not_json_is_refused() {
    let text = "[work]\ntoken = {not json\n\n";
    assert_eq!(parse_config(String::new(), &lines(text)).err(), Some(ConfigError::TokenJson));
}

#[test]
fn token_with_bad_expiry_is_refused() {
    let text = "[work]\ntoken = {\"access_token\":\"a\",\"expiry\":\"yesterday\"}\n\n";
    assert_eq!(parse_config(String::new(), &lines(text)).err(), Some(ConfigError::TokenExpiry));
}

#[test]
fn decode_token_reads_members_without_quotes() {
    let t = decode_token("{\"access_token\":\"abc\",\"token_type\":\"Bearer\",\"refresh_token\":\"r\",\"expiry\":\"2024-01-02T03:04:05Z\"}").unwrap();
    assert_eq!(t.access_token, "abc");
    assert_eq!(t.token_type, "Bearer");
    assert_eq!(t.refresh_token, "r");
    assert_eq!(t.expiry, "2024-01-02T03:04:05+00:00");
}

#[test]
fn missing_member_reads_as_null() {
    let t = decode_token("{\"expiry\":\"2024-01-02T03:04:05+02:00\"}").unwrap();
    assert_eq!(t.access_token, "null");
    assert_eq!(t.expiry, "2024-01-02T03:04:05+02:00");
}

#[test]
fn expiry_label_shows_date_and_minutes() {
    assert_eq!(token().expiry_label(), "2023/03/01 12:34");
}

#[test]
fn expiry_label_of_short_text() {
    let mut t = token();
    t.expiry = String::from("2023-03");
    assert_eq!(t.expiry_label(), "2023/03");
}
