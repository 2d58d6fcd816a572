//! Drive descriptors and the parser of the drive catalog (an rclone-style
//! configuration file, given line by line).

use vstd::prelude::*;
use vstd::string::*;
use crate::text::push_char;

verus! {

/// serde_json's parse error, only told apart from success.
#[verifier::external_type_specification]
#[verifier::external_body]
pub struct ExJsonError(serde_json::Error);

/// chrono's parse error, only told apart from success.
#[verifier::external_type_specification]
#[verifier::external_body]
pub struct ExChronoParseError(chrono::ParseError);

/// Whether serde_json accepts a text as one JSON document.
pub uninterp spec fn json_accepts(doc: Seq<char>) -> bool;

/// The JSON text that serde_json writes for the member `key` of the document
/// `doc` (`null` where the document has no such member).
pub uninterp spec fn json_member_rendering(doc: Seq<char>, key: Seq<char>) -> Seq<char>;

/// Whether chrono accepts a text as an RFC 3339 date and time.
pub uninterp spec fn rfc3339_accepts(text: Seq<char>) -> bool;

/// Relies on `serde_json::from_str` into a `Value`, which succeeds exactly on
/// the texts that hold one JSON document (a matter of the text alone); the
/// member `key` of the value read (indexing gives `null` for a missing member
/// and never panics) is handed back as its `Display` rendering writes it.
#[verifier::external_body]
fn json_member_text(doc: &str, key: &str) -> (r: Result<String, serde_json::Error>)
    ensures
        r is Ok <==> json_accepts(doc@),
        r matches Ok(s) ==> s@ == json_member_rendering(doc@, key@),
{
    serde_json::from_str::<serde_json::Value>(doc).map(|v| v[key].to_string())
}

/// The RFC 3339 text that chrono writes for the instant that it reads in a
/// text (same offset, automatic sub-second digits).
pub uninterp spec fn rfc3339_rendering(text: Seq<char>) -> Seq<char>;

/// Relies on `chrono::DateTime::parse_from_rfc3339`, which succeeds exactly on
/// the texts that chrono reads as RFC 3339; the instant read is handed back
/// as `to_rfc3339_opts(SecondsFormat::AutoSi, false)` writes it.
#[verifier::external_body]
fn parse_rfc3339(text: &str) -> (r: Result<String, chrono::ParseError>)
    ensures
        r is Ok <==> rfc3339_accepts(text@),
        r matches Ok(s) ==> s@ == rfc3339_rendering(text@),
{
    chrono::DateTime::parse_from_rfc3339(text).map(|d| d.to_rfc3339_opts(chrono::SecondsFormat::AutoSi, false))
}

/// The credential of a drive. `expiry` is its expiry instant in RFC 3339.
pub struct TokenStruct {
    pub access_token: String,
    pub token_type: String,
    pub refresh_token: String,
    pub expiry: String,
}

/// A drive of the catalog: its name, its kind (such as "drive"), its auth
/// scope and its credential.
pub struct DriveStruct {
    pub name: String,
    pub drive_type: String,
    pub scope: String,
    pub token: TokenStruct,
}

/// A drive catalog: the file it came from and its drives, in file order.
pub struct ConfigStruct {
    pub path: String,
    pub drives: Vec<DriveStruct>,
}

impl Clone for TokenStruct {
    fn clone(&self) -> (r: Self)
        ensures
            r == *self,
    {
        TokenStruct {
            access_token: self.access_token.clone(),
            token_type: self.token_type.clone(),
            refresh_token: self.refresh_token.clone(),
            expiry: self.expiry.clone(),
        }
    }
}

impl Clone for DriveStruct {
    fn clone(&self) -> (r: Self)
        ensures
            r == *self,
    {
        DriveStruct {
            name: self.name.clone(),
            drive_type: self.drive_type.clone(),
            scope: self.scope.clone(),
            token: self.token.clone(),
        }
    }
}

/// Why a catalog could not be read.
#[derive(Clone, Copy, Debug, PartialEq, Eq, Structural)]
pub enum ConfigError {
    /// A drive ends before any credential was given.
    MissingToken,
    /// A credential is not a JSON document.
    TokenJson,
    /// The expiry of a credential is not an RFC 3339 date and time.
    TokenExpiry,
}

/// `s` without any occurrence of `c`.
pub open spec fn remove_char(s: Seq<char>, c: char) -> Seq<char>
    decreases s.len(),
{
    if s.len() == 0 {
        s
    } else if s.last() == c {
        remove_char(s.drop_last(), c)
    } else {
        remove_char(s.drop_last(), c).push(s.last())
    }
}

/// The text after the last `=` of a line; the whole line where it has none.
pub open spec fn after_last_eq(line: Seq<char>) -> Seq<char>
    decreases line.len(),
{
    if line.len() == 0 {
        line
    } else if line.last() == '=' {
        Seq::empty()
    } else {
        after_last_eq(line.drop_last()).push(line.last())
    }
}

/// The first label of an expiry: its first 16 characters (date, hours and
/// minutes), with `T` shown as a space and `-` as `/`.
pub open spec fn expiry_label_of(s: Seq<char>) -> Seq<char> {
    Seq::new(
        if s.len() < 16 {
            s.len()
        } else {
            16
        },
        |i: int| label_char(s[i]),
    )
}

pub open spec fn label_char(c: char) -> char {
    if c == 'T' {
        ' '
    } else if c == '-' {
        '/'
    } else {
        c
    }
}

/// The text of the member `key` of a credential document, without quotes.
pub open spec fn member(doc: Seq<char>, key: Seq<char>) -> Seq<char> {
    remove_char(json_member_rendering(doc, key), '"')
}

/// A credential holds what its JSON document `doc` says: each member without
/// quotes, the expiry as chrono writes it again.
pub open spec fn token_matches(t: TokenStruct, doc: Seq<char>) -> bool {
    &&& t.access_token@ == member(doc, "access_token"@)
    &&& t.token_type@ == member(doc, "token_type"@)
    &&& t.refresh_token@ == member(doc, "refresh_token"@)
    &&& t.expiry@ == rfc3339_rendering(member(doc, "expiry"@))
}

/// Why a credential document is refused, if it is: it is not JSON, or its
/// expiry is not RFC 3339.
pub open spec fn token_error(doc: Seq<char>) -> Option<ConfigError> {
    if !json_accepts(doc) {
        Some(ConfigError::TokenJson)
    } else if !rfc3339_accepts(member(doc, "expiry"@)) {
        Some(ConfigError::TokenExpiry)
    } else {
        None
    }
}

/// What a drive section has declared so far: its name, kind, scope and the
/// JSON document of its credential.
pub struct SectionFields {
    pub name: Seq<char>,
    pub kind: Seq<char>,
    pub scope: Seq<char>,
    pub token: Option<Seq<char>>,
}

/// Where the reading of a catalog stands: the fields of the current
/// section, whether a section is open, the drives closed so far, and the
/// error met, if any.
pub struct ScanState {
    pub fields: SectionFields,
    pub open: bool,
    pub drives: Seq<SectionFields>,
    pub error: Option<ConfigError>,
}

pub open spec fn starts_with2(line: Seq<char>, a: char, b: char) -> bool {
    line.len() >= 2 && line[0] == a && line[1] == b
}

/// The name in a `[name]` line.
pub open spec fn header_name(line: Seq<char>) -> Seq<char> {
    if line.len() >= 2 {
        line.subrange(1, line.len() - 1)
    } else {
        Seq::empty()
    }
}

/// Closing the open section, if there is one: it becomes a drive where it
/// has a credential; without one, reading fails with `MissingToken`.
pub open spec fn close(st: ScanState) -> ScanState {
    if st.error is Some || !st.open {
        st
    } else if st.fields.token is None {
        ScanState { error: Some(ConfigError::MissingToken), ..st }
    } else {
        ScanState { open: false, drives: st.drives.push(st.fields), ..st }
    }
}

/// What one line does. A blank line closes the open section; `[name]` closes
/// it too and opens a fresh one named `name`. Inside a section, `type` and
/// `scope` lines set the text after their last `=` without spaces, and a
/// `token` line sets its JSON document (the text after its last `=`), which
/// must be a credential; other lines, and lines outside any section, are
/// skipped. After an error nothing changes.
pub open spec fn scan_line(st: ScanState, line: Seq<char>) -> ScanState {
    if st.error is Some {
        st
    } else if line.len() == 0 {
        close(st)
    } else if line[0] == '[' {
        let c = close(st);
        if c.error is Some {
            c
        } else {
            ScanState {
                fields: SectionFields {
                    name: header_name(line),
                    kind: Seq::empty(),
                    scope: Seq::empty(),
                    token: None,
                },
                open: true,
                ..c
            }
        }
    } else if !st.open {
        st
    } else if starts_with2(line, 't', 'y') {
        ScanState {
            fields: SectionFields { kind: remove_char(after_last_eq(line), ' '), ..st.fields },
            ..st
        }
    } else if starts_with2(line, 's', 'c') {
        ScanState {
            fields: SectionFields { scope: remove_char(after_last_eq(line), ' '), ..st.fields },
            ..st
        }
    } else if starts_with2(line, 't', 'o') {
        match token_error(after_last_eq(line)) {
            Some(e) => ScanState { error: Some(e), ..st },
            None => ScanState {
                fields: SectionFields { token: Some(after_last_eq(line)), ..st.fields },
                ..st
            },
        }
    } else {
        st
    }
}

pub open spec fn initial_state() -> ScanState {
    ScanState {
        fields: SectionFields { name: Seq::empty(), kind: Seq::empty(), scope: Seq::empty(), token: None },
        open: false,
        drives: Seq::empty(),
        error: None,
    }
}

/// The state after reading `lines`.
pub open spec fn scan_state(lines: Seq<Seq<char>>) -> ScanState
    decreases lines.len(),
{
    if lines.len() == 0 {
        initial_state()
    } else {
        scan_line(scan_state(lines.drop_last()), lines.last())
    }
}

/// The reading of a whole catalog: the last section is closed at the end.
pub open spec fn catalog_state(lines: Seq<Seq<char>>) -> ScanState {
    close(scan_state(lines))
}

/// The texts of a sequence of strings.
pub open spec fn texts(lines: Seq<String>) -> Seq<Seq<char>> {
    Seq::new(lines.len(), |i: int| lines[i]@)
}

/// A drive holds what a closed section declared.
pub open spec fn drive_matches(d: DriveStruct, e: SectionFields) -> bool {
    &&& d.name@ == e.name
    &&& d.drive_type@ == e.kind
    &&& d.scope@ == e.scope
    &&& e.token matches Some(doc) && token_matches(d.token, doc)
}

/// A catalog read from `path` holds the drives that reading `lines` closed,
/// in order.
pub open spec fn catalog_read(c: ConfigStruct, path: String, lines: Seq<Seq<char>>) -> bool {
    &&& c.path == path
    &&& c.drives@.len() == catalog_state(lines).drives.len()
    &&& forall|j: int|
        0 <= j < c.drives@.len() ==> drive_matches(#[trigger] c.drives@[j], catalog_state(lines).drives[j])
}

fn chars_of(s: &str) -> (r: Vec<char>)
    ensures
        r@ == s@,
{
    let n = s.unicode_len();
    let mut v: Vec<char> = Vec::new();
    let mut i: usize = 0;
    while i < n
        invariant
            n == s@.len(),
            i <= n,
            v@ == s@.subrange(0, i as int),
        decreases n - i,
    {
        v.push(s.get_char(i));
        i = i + 1;
        assert(v@ =~= s@.subrange(0, i as int));
    }
    assert(v@ =~= s@);
    v
}

fn string_of(v: &Vec<char>, from: usize, to: usize) -> (r: String)
    requires
        from <= to <= v@.len(),
    ensures
        r@ == v@.subrange(from as int, to as int),
{
    let mut s = String::new();
    let mut i = from;
    while i < to
        invariant
            from <= i <= to <= v@.len(),
            s@ == v@.subrange(from as int, i as int),
        decreases to - i,
    {
        push_char(&mut s, v[i]);
        i = i + 1;
        assert(s@ =~= v@.subrange(from as int, i as int));
    }
    s
}

fn without_char(v: &Vec<char>, from: usize, c: char) -> (r: String)
    requires
        from <= v@.len(),
    ensures
        r@ == remove_char(v@.subrange(from as int, v@.len() as int), c),
{
    let mut s = String::new();
    let mut i = from;
    while i < v.len()
        invariant
            from <= i <= v@.len(),
            s@ == remove_char(v@.subrange(from as int, i as int), c),
        decreases v@.len() - i,
    {
        assert(v@.subrange(from as int, i + 1).drop_last() =~= v@.subrange(from as int, i as int));
        if v[i] != c {
            push_char(&mut s, v[i]);
        }
        i = i + 1;
    }
    s
}

proof fn lemma_after_last_eq(line: Seq<char>, k: int)
    requires
        0 <= k <= line.len(),
        k == 0 || line[k - 1] == '=',
        forall|j: int| k <= j < line.len() ==> line[j] != '=',
    ensures
        after_last_eq(line) == line.subrange(k, line.len() as int),
    decreases line.len(),
{
    if line.len() == k {
        assert(line.subrange(k, k) =~= Seq::<char>::empty());
    } else {
        lemma_after_last_eq(line.drop_last(), k);
        assert(line.subrange(k, line.len() as int) =~= line.drop_last().subrange(k, line.len() - 1).push(
            line.last(),
        ));
    }
}

/// The index just after the last `=` of `v`, or 0.
fn after_last_eq_start(v: &Vec<char>) -> (k: usize)
    ensures
        k <= v@.len(),
        after_last_eq(v@) == v@.subrange(k as int, v@.len() as int),
{
    let mut k = v.len();
    while k > 0 && v[k - 1] != '='
        invariant
            k <= v@.len(),
            forall|j: int| k <= j < v@.len() ==> v@[j] != '=',
        decreases k,
    {
        k = k - 1;
    }
    proof {
        lemma_after_last_eq(v@, k as int);
    }
    k
}

/// `s` without its `"` characters.
fn remove_quotes(s: &str) -> (r: String)
    ensures
        r@ == remove_char(s@, '"'),
{
    let v = chars_of(s);
    assert(v@.subrange(0, v@.len() as int) =~= v@);
    without_char(&v, 0, '"')
}

/// The credential that a JSON document describes: its members
/// `access_token`, `token_type`, `refresh_token` and `expiry`, each as its
/// JSON rendering without quotes, the expiry then written again by chrono.
/// Fails with `TokenJson` where the text is not JSON, then with `TokenExpiry`
/// where the expiry is not RFC 3339.
pub fn decode_token(text: &str) -> (r: Result<TokenStruct, ConfigError>)
    ensures
        token_error(text@) matches Some(e) ==> r == Err::<TokenStruct, ConfigError>(e),
        token_error(text@) is None ==> (r matches Ok(t) && token_matches(t, text@)),
{
    let access = match json_member_text(text, "access_token") {
        Ok(s) => s,
        Err(_) => {
            return Err(ConfigError::TokenJson);
        },
    };
    let kind = match json_member_text(text, "token_type") {
        Ok(s) => s,
        Err(_) => {
            return Err(ConfigError::TokenJson);
        },
    };
    let refresh = match json_member_text(text, "refresh_token") {
        Ok(s) => s,
        Err(_) => {
            return Err(ConfigError::TokenJson);
        },
    };
    let expiry_member = match json_member_text(text, "expiry") {
        Ok(s) => s,
        Err(_) => {
            return Err(ConfigError::TokenJson);
        },
    };
    let access_token = remove_quotes(access.as_str());
    let token_type = remove_quotes(kind.as_str());
    let refresh_token = remove_quotes(refresh.as_str());
    let expiry_text = remove_quotes(expiry_member.as_str());
    let expiry = match parse_rfc3339(expiry_text.as_str()) {
        Ok(d) => d,
        Err(_) => {
            return Err(ConfigError::TokenExpiry);
        },
    };
    Ok(TokenStruct { access_token, token_type, refresh_token, expiry })
}

impl TokenStruct {
    /// The expiry as shown to the operator: "YYYY/MM/DD HH:MM".
    pub fn expiry_label(&self) -> (r: String)
        ensures
            r@ == expiry_label_of(self.expiry@),
    {
        let v = chars_of(self.expiry.as_str());
        let n: usize = if v.len() < 16 {
            v.len()
        } else {
            16
        };
        let mut s = String::new();
        let mut i: usize = 0;
        while i < n
            invariant
                n <= v@.len(),
                n == expiry_label_of(self.expiry@).len(),
                v@ == self.expiry@,
                i <= n,
                s@ == expiry_label_of(self.expiry@).subrange(0, i as int),
            decreases n - i,
        {
            let c = v[i];
            let d = if c == 'T' {
                ' '
            } else if c == '-' {
                '/'
            } else {
                c
            };
            push_char(&mut s, d);
            i = i + 1;
            assert(s@ =~= expiry_label_of(self.expiry@).subrange(0, i as int));
        }
        assert(s@ =~= expiry_label_of(self.expiry@));
        s
    }
}

/// The variables of `parse_config` hold the reading state `st`, which has
/// met no error.
pub open spec fn mirrors(
    st: ScanState,
    name: Seq<char>,
    kind: Seq<char>,
    scope: Seq<char>,
    open: bool,
    token: Option<TokenStruct>,
    drives: Seq<DriveStruct>,
) -> bool {
    &&& st.error is None
    &&& name == st.fields.name
    &&& kind == st.fields.kind
    &&& scope == st.fields.scope
    &&& open == st.open
    &&& (token is Some <==> st.fields.token is Some)
    &&& match (token, st.fields.token) {
        (Some(t), Some(doc)) => token_matches(t, doc),
        _ => true,
    }
    &&& drives.len() == st.drives.len()
    &&& forall|j: int| 0 <= j < drives.len() ==> drive_matches(#[trigger] drives[j], st.drives[j])
}

/// Once reading has failed, it stays failed with the same error.
proof fn lemma_error_persists(ls: Seq<Seq<char>>, m: int, n: int)
    requires
        0 <= m <= n <= ls.len(),
        scan_state(ls.subrange(0, m)).error is Some,
    ensures
        scan_state(ls.subrange(0, n)).error == scan_state(ls.subrange(0, m)).error,
    decreases n - m,
{
    if n > m {
        lemma_error_persists(ls, m, n - 1);
        assert(ls.subrange(0, n).drop_last() =~= ls.subrange(0, n - 1));
    }
}

fn close_section(
    drives: &mut Vec<DriveStruct>,
    open: &mut bool,
    name: &String,
    kind: &String,
    scope: &String,
    token: &Option<TokenStruct>,
    Ghost(st): Ghost<ScanState>,
) -> (r: Result<(), ConfigError>)
    requires
        mirrors(st, name@, kind@, scope@, *old(open), *token, old(drives)@),
    ensures
        close(st).error matches Some(e) ==> r == Err::<(), ConfigError>(e),
        close(st).error is None ==> r is Ok && mirrors(
            close(st),
            name@,
            kind@,
            scope@,
            *final(open),
            *token,
            final(drives)@,
        ),
{
    if !*open {
        return Ok(());
    }
    match token {
        None => Err(ConfigError::MissingToken),
        Some(t) => {
            drives.push(
                DriveStruct { name: name.clone(), drive_type: kind.clone(), scope: scope.clone(), token: t.clone() },
            );
            *open = false;
            proof {
                let c = close(st);
                assert forall|j: int| 0 <= j < drives@.len() implies drive_matches(
                    #[trigger] drives@[j],
                    c.drives[j],
                ) by {
                    if j < old(drives)@.len() {
                        assert(drives@[j] == old(drives)@[j]);
                    }
                }
            }
            Ok(())
        },
    }
}

/// Reads a catalog from the lines of its file (without line ends), as
/// `catalog_state` describes: each section, opened by a `[name]` line and
/// closed by a blank line, the next `[name]` line or the end, becomes one
/// drive. Fails with `MissingToken` where a section closes without a
/// credential, with `TokenJson` or `TokenExpiry` where a credential is
/// refused, at the first such line.
pub fn parse_config(path: String, lines: &Vec<String>) -> (r: Result<ConfigStruct, ConfigError>)
    ensures
        catalog_state(texts(lines@)).error matches Some(e) ==> r == Err::<ConfigStruct, ConfigError>(e),
        catalog_state(texts(lines@)).error is None ==> (r matches Ok(c) && catalog_read(
            c,
            path,
            texts(lines@),
        )),
{
    let ghost ls = texts(lines@);
    let mut name = String::new();
    let mut kind = String::new();
    let mut scope = String::new();
    let mut token: Option<TokenStruct> = None;
    let mut open = false;
    let mut drives: Vec<DriveStruct> = Vec::new();
    let mut i: usize = 0;
    assert(ls.subrange(0, 0) =~= Seq::<Seq<char>>::empty());
    while i < lines.len()
        invariant
            ls == texts(lines@),
            i <= lines@.len(),
            mirrors(scan_state(ls.subrange(0, i as int)), name@, kind@, scope@, open, token, drives@),
        decreases lines@.len() - i,
    {
        let ghost before = ls.subrange(0, i as int);
        let ghost after = ls.subrange(0, i + 1);
        let ghost st = scan_state(before);
        assert(after.drop_last() =~= before);
        let v = chars_of(lines[i].as_str());
        assert(after.last() == v@);
        if v.len() == 0 || v[0] == '[' {
            match close_section(&mut drives, &mut open, &name, &kind, &scope, &token, Ghost(st)) {
                Ok(()) => {},
                Err(e) => {
                    proof {
                        lemma_error_persists(ls, i + 1, ls.len() as int);
                        assert(ls.subrange(0, ls.len() as int) =~= ls);
                    }
                    return Err(e);
                },
            }
            if v.len() > 0 {
                if v.len() >= 2 {
                    name = string_of(&v, 1, v.len() - 1);
                } else {
                    name = String::new();
                }
                kind = String::new();
                scope = String::new();
                token = None;
                open = true;
            }
        } else if !open {
        } else if v.len() >= 2 && v[0] == 't' && v[1] == 'y' {
            let k = after_last_eq_start(&v);
            kind = without_char(&v, k, ' ');
        } else if v.len() >= 2 && v[0] == 's' && v[1] == 'c' {
            let k = after_last_eq_start(&v);
            scope = without_char(&v, k, ' ');
        } else if v.len() >= 2 && v[0] == 't' && v[1] == 'o' {
            let k = after_last_eq_start(&v);
            let raw = string_of(&v, k, v.len());
            match decode_token(raw.as_str()) {
                Ok(t) => {
                    token = Some(t);
                },
                Err(e) => {
                    proof {
                        lemma_error_persists(ls, i + 1, ls.len() as int);
                        assert(ls.subrange(0, ls.len() as int) =~= ls);
                    }
                    return Err(e);
                },
            }
        }
        i = i + 1;
    }
    assert(ls.subrange(0, i as int) =~= ls);
    match close_section(&mut drives, &mut open, &name, &kind, &scope, &token, Ghost(scan_state(ls))) {
        Ok(()) => Ok(ConfigStruct { path, drives }),
        Err(e) => Err(e),
    }
}

} // verus!
