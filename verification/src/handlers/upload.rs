//! Uploads: which requests are accepted, and where an accepted file is stored.
use vstd::prelude::*;
use crate::anyhow_response_error::{
    AnyhowError, ErrorReport, anyhow_error, context_report, is_message_error, reports_text,
};
use crate::handlers::{is_lower_hex, is_uuid_text, is_v4_uuid_text, new_uuid_text};
use crate::reply::{BodyModel, Reply, opt_view, plain_reply};

verus! {

/// What an upload request carries: the uploaded file's name as the client
/// gave it, its size in bytes, and the user that uploads it.
pub struct InputData {
    pub file_name: Option<String>,
    pub file_size: usize,
    pub user_id: String,
}

/// The part of a text after its last `.`; the whole text when it holds no `.`.
pub open spec fn after_last_dot(s: Seq<char>) -> Seq<char>
    decreases s.len(),
{
    if s.len() == 0 {
        s
    } else if s.last() == '.' {
        Seq::<char>::empty()
    } else {
        after_last_dot(s.drop_last()).push(s.last())
    }
}

/// The extension of an uploaded file: the part of its name after the last
/// `.`, or `unknown` when the client gave no name.
pub open spec fn file_extension(file_name: Option<Seq<char>>) -> Seq<char> {
    match file_name {
        Some(n) => after_last_dot(n),
        None => "unknown"@,
    }
}

/// A text with every double quote taken out.
pub open spec fn without_quotes(s: Seq<char>) -> Seq<char> {
    s.filter(|c: char| c != '"')
}

/// What `Path::join` gives on Unix: a part that starts with `/` replaces the
/// base; otherwise a separator is put between them unless the base is empty
/// or already ends with one.
pub open spec fn path_join(base: Seq<char>, part: Seq<char>) -> Seq<char> {
    if part.len() > 0 && part[0] == '/' {
        part
    } else if base.len() > 0 && base.last() != '/' {
        base + "/"@ + part
    } else {
        base + part
    }
}

/// The name under which an upload is stored: the file id, a dot, the extension.
pub open spec fn stored_file_name(file_id: Seq<char>, extension: Seq<char>) -> Seq<char> {
    file_id + "."@ + extension
}

/// Where an upload is stored: `./uploads`, then the user, then the date,
/// then the stored file name, each joined as `Path::join` joins.
pub open spec fn upload_path(
    user_id: Seq<char>,
    date: Seq<char>,
    file_id: Seq<char>,
    extension: Seq<char>,
) -> Seq<char> {
    path_join(
        path_join(path_join("./uploads"@, user_id), date),
        stored_file_name(file_id, extension),
    )
}

/// Whether a character is a decimal digit.
pub open spec fn is_decimal(c: char) -> bool {
    '0' <= c <= '9'
}

/// Whether a text is a date as chrono's `%Y-%m-%d` writes one: the year as
/// four or more decimal digits, with a leading `+` or `-` allowed, then `-`,
/// the month as two digits, `-`, and the day as two digits.
pub open spec fn is_date_text(d: Seq<char>) -> bool {
    let n = d.len() as int;
    &&& n >= 10
    &&& d[n - 6] == '-'
    &&& d[n - 3] == '-'
    &&& is_decimal(d[n - 5]) && is_decimal(d[n - 4])
    &&& is_decimal(d[n - 2]) && is_decimal(d[n - 1])
    &&& forall|i: int|
        0 <= i < n - 6 ==> is_decimal(#[trigger] d[i]) || (i == 0 && (d[i] == '+' || d[i] == '-'))
}

/// The pattern with which upload dates are written.
pub open spec fn date_pattern() -> Seq<char> {
    "%Y-%m-%d"@
}

/// Calls `chrono::Local::now()` and formats it with the given pattern,
/// which must be `%Y-%m-%d` (another pattern could be one that chrono
/// cannot format, and `to_string` would panic). The value depends on the
/// clock and the time zone; the contract claims only the shape that
/// chrono's formatting writes for every date: the year zero-padded to four
/// digits, with a sign outside 0 to 9999, then two-digit month and day.
/// Which date it is is left unsaid. The call panics when the system clock
/// reads a time before 1970, which no argument can rule out.
#[verifier::external_body]
fn format_local_now(pattern: &str) -> (d: String)
    requires
        pattern@ == date_pattern(),
    ensures
        is_date_text(d@),
{
    chrono::Local::now().format(pattern).to_string()
}

/// Whether an upload request is refused: no user, or an empty file.
pub open spec fn upload_refused(user_id: Seq<char>, file_size: usize) -> bool {
    user_id.len() == 0 || file_size == 0
}

/// The extension of a file name: the part after its last `.`, or `unknown`
/// when there is no name.
pub fn file_extension_of(file_name: Option<&str>) -> (r: String)
    ensures
        r@ == file_extension(match file_name {
            Some(n) => Some(n@),
            None => None,
        }),
{
    match file_name {
        None => String::from_str("unknown"),
        Some(name) => {
            let n = name.unicode_len();
            let ghost s = name@;
            let mut start: usize = 0;
            let mut j: usize = 0;
            while j < n
                invariant
                    n == s.len(),
                    s == name@,
                    start <= j <= n,
                    after_last_dot(s.take(j as int)) =~= s.subrange(start as int, j as int),
                decreases n - j,
            {
                let c = name.get_char(j);
                assert(s.take(j + 1).drop_last() =~= s.take(j as int));
                assert(s.take(j + 1).last() == c);
                if c == '.' {
                    start = j + 1;
                }
                j = j + 1;
            }
            assert(s.take(n as int) =~= s);
            let tail = name.substring_char(start, n);
            String::from_str(tail)
        },
    }
}

/// The text with every double quote taken out.
pub fn remove_quotes(s: &str) -> (r: String)
    ensures
        r@ == without_quotes(s@),
{
    let n = s.unicode_len();
    let ghost v = s@;
    let mut r = String::new();
    let mut j: usize = 0;
    while j < n
        invariant
            n == v.len(),
            v == s@,
            j <= n,
            r@ == without_quotes(v.take(j as int)),
        decreases n - j,
    {
        let c = s.get_char(j);
        proof {
            reveal_with_fuel(Seq::<_>::filter, 1);
            assert(v.take(j + 1).drop_last() =~= v.take(j as int));
            assert(v.take(j + 1).last() == c);
        }
        if c != '"' {
            let one = s.substring_char(j, j + 1);
            assert(one@ =~= seq![c]);
            r.append(one);
        }
        j = j + 1;
    }
    assert(v.take(n as int) =~= v);
    r
}

/// Joins a path part to a base path as `Path::join` does on Unix.
pub fn join_path(base: &str, part: &str) -> (r: String)
    ensures
        r@ == path_join(base@, part@),
{
    let part_len = part.unicode_len();
    if part_len > 0 && part.get_char(0) == '/' {
        return String::from_str(part);
    }
    let base_len = base.unicode_len();
    let mut r = String::from_str(base);
    if base_len > 0 && base.get_char(base_len - 1) != '/' {
        r.append("/");
    }
    r.append(part);
    r
}

/// The path at which an upload is stored, from its parts.
pub fn compose_upload_path(user_id: &str, date: &str, file_id: &str, extension: &str) -> (r: String)
    ensures
        r@ == upload_path(user_id@, date@, file_id@, extension@),
{
    let user_dir = join_path("./uploads", user_id);
    let date_dir = join_path(user_dir.as_str(), date);
    let mut name = String::from_str(file_id);
    name.append(".");
    name.append(extension);
    join_path(date_dir.as_str(), name.as_str())
}

/// The path at which an accepted upload is stored: the extension comes from
/// the file name with its double quotes taken out, the file id is a fresh
/// UUID and the date is today's.
pub fn save_file_path(file_name: Option<&str>, user_id: &str) -> (r: String)
    ensures
        exists|date: Seq<char>, file_id: Seq<char>|
            is_date_text(date) && is_v4_uuid_text(file_id) && r@ == upload_path(
                user_id@,
                date,
                file_id,
                without_quotes(
                    file_extension(
                        match file_name {
                            Some(n) => Some(n@),
                            None => None,
                        },
                    ),
                ),
            ),
{
    let extension = file_extension_of(file_name);
    let sanitized = remove_quotes(extension.as_str());
    let file_id = new_uuid_text();
    let date = format_local_now("%Y-%m-%d");
    let r = compose_upload_path(user_id, date.as_str(), file_id.as_str(), sanitized.as_str());
    assert(is_date_text(date@) && is_v4_uuid_text(file_id@));
    r
}

/// Checks an upload request and, when it is accepted, gives the path at
/// which the file is to be stored. A request without a user or with an
/// empty file is refused with the error `Input data is empty`.
pub fn handle_upload(input: &InputData) -> (r: Result<String, AnyhowError>)
    ensures
        r is Err <==> upload_refused(input.user_id@, input.file_size),
        r matches Err(e) ==> is_message_error(e@, "Input data is empty"@),
        r matches Ok(path) ==> exists|date: Seq<char>, file_id: Seq<char>|
            is_date_text(date) && is_v4_uuid_text(file_id) && path@ == upload_path(
                input.user_id@,
                date,
                file_id,
                without_quotes(file_extension(opt_view(input.file_name))),
            ),
{
    if input.user_id.as_str().is_empty() || input.file_size == 0 {
        return Err(anyhow_error(ErrorReport::msg(String::from_str("Input data is empty"))));
    }
    let file_name: Option<&str> = match &input.file_name {
        Some(n) => Some(n.as_str()),
        None => None,
    };
    Ok(save_file_path(file_name, input.user_id.as_str()))
}

/// The reply once the file has been stored, or the error that storing it
/// met: `200 OK` with the text `File uploaded successfully`, or that error.
pub fn upload_reply(saved: Result<(), ErrorReport>) -> (r: Result<Reply, AnyhowError>)
    ensures
        saved is Ok ==> (r matches Ok(reply) && reply@ == plain_reply(
            200,
            BodyModel::Text("File uploaded successfully"@),
        )),
        saved matches Err(e) ==> (r matches Err(a) && a@ == e@),
{
    match saved {
        Ok(()) => Ok(Reply::text(200, String::from_str("File uploaded successfully"))),
        Err(e) => Err(anyhow_error(e)),
    }
}

/// The error when the directory for a stored file cannot be created: it
/// shows a message that names the path, and has the cause (an I/O error,
/// which has no source) below it in its report.
pub fn directory_error(path: &str, cause: &str) -> (e: ErrorReport)
    ensures
        e@.message == "Failed to create directory for path: "@ + path@,
        reports_text(e@.report, context_report("Failed to create directory for path: "@ + path@, cause@)),
        e@.database_constraint is None,
{
    let mut message = String::from_str("Failed to create directory for path: ");
    message.append(path);
    ErrorReport::context(message, String::from_str(cause))
}

/// The error when the file cannot be created: its message names the path
/// and the cause's debug text.
pub fn file_create_error(path: &str, cause_debug: &str) -> (e: ErrorReport)
    ensures
        is_message_error(e@, "Error creating file at path: "@ + path@ + ". Error: "@ + cause_debug@),
{
    let mut message = String::from_str("Error creating file at path: ");
    message.append(path);
    message.append(". Error: ");
    message.append(cause_debug);
    ErrorReport::msg(message)
}

/// The extension holds no dot: it is what follows the last one.
pub proof fn lemma_extension_has_no_dot(name: Seq<char>)
    ensures
        forall|i: int| 0 <= i < after_last_dot(name).len() ==> #[trigger] after_last_dot(name)[i] != '.',
    decreases name.len(),
{
    if name.len() > 0 && name.last() != '.' {
        lemma_extension_has_no_dot(name.drop_last());
        let prev = after_last_dot(name.drop_last());
        assert forall|i: int| 0 <= i < after_last_dot(name).len() implies #[trigger] after_last_dot(name)[i]
            != '.' by {
            if i < prev.len() {
                assert(after_last_dot(name)[i] == prev[i]);
            }
        }
    }
}

/// A sanitised extension holds no double quote.
pub proof fn lemma_sanitized_has_no_quote(s: Seq<char>)
    ensures
        forall|i: int| 0 <= i < without_quotes(s).len() ==> #[trigger] without_quotes(s)[i] != '"',
{
    broadcast use vstd::seq_lib::group_filter_ensures;
}

/// The shape of the path at which an upload is stored, for a user id that
/// is not an absolute path: `./uploads/`, the user id, a separator unless
/// the user id already ends with one, the date, a separator, the file id,
/// a dot and the extension.
pub proof fn lemma_upload_path_shape(
    user_id: Seq<char>,
    date: Seq<char>,
    file_id: Seq<char>,
    extension: Seq<char>,
)
    requires
        user_id.len() > 0,
        user_id[0] != '/',
        is_date_text(date),
        is_uuid_text(file_id),
    ensures
        upload_path(user_id, date, file_id, extension) == "./uploads/"@ + user_id + (if user_id.last()
            == '/' {
            Seq::<char>::empty()
        } else {
            "/"@
        }) + date + "/"@ + file_id + "."@ + extension,
{
    reveal_strlit("./uploads");
    reveal_strlit("./uploads/");
    reveal_strlit("/");
    reveal_strlit(".");
    let user_dir = path_join("./uploads"@, user_id);
    assert(user_dir == "./uploads/"@ + user_id);
    let sep: Seq<char> = if user_id.last() == '/' {
        Seq::<char>::empty()
    } else {
        "/"@
    };
    assert(user_dir.last() == user_id.last());
    assert(date[0] != '/') by {
        assert(is_decimal(date[0]) || date[0] == '+' || date[0] == '-');
    }
    let date_dir = path_join(user_dir, date);
    assert(date_dir =~= "./uploads/"@ + user_id + sep + date);
    assert(date.last() == date[date.len() - 1]);
    assert(is_decimal(date[date.len() - 1]));
    assert(date_dir.last() == date.last());
    assert(date_dir.last() != '/');
    let name = stored_file_name(file_id, extension);
    assert(name[0] == file_id[0]);
    assert(is_lower_hex(file_id[0]));
    assert(name[0] != '/');
    assert(path_join(date_dir, name) =~= "./uploads/"@ + user_id + sep + date + "/"@ + file_id + "."@
        + extension);
}

} // verus!
