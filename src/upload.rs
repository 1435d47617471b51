use vstd::prelude::*;
use vstd::string::*;

verus! {

/// The bucket that thumbnails are stored in.
pub const BUCKET_NAME: &'static str = "tokkitang";

/// The public base URL of that bucket.
pub const BUCKET_URL: &'static str = "https://static.tokkitang.com";

/// What a thumbnail belongs to.
#[derive(PartialEq, Eq, Structural, Clone, Copy, Debug)]
pub enum ThumbnailKind {
    User,
    Team,
    Project,
}

/// The directory of each kind of thumbnail.
pub open spec fn kind_dir(k: ThumbnailKind) -> Seq<char> {
    match k {
        ThumbnailKind::User => "thumbnail/user/"@,
        ThumbnailKind::Team => "thumbnail/team/"@,
        ThumbnailKind::Project => "thumbnail/project/"@,
    }
}

/// The character of a decimal digit.
pub open spec fn digit_char(d: nat) -> char {
    if d == 0 {
        '0'
    } else if d == 1 {
        '1'
    } else if d == 2 {
        '2'
    } else if d == 3 {
        '3'
    } else if d == 4 {
        '4'
    } else if d == 5 {
        '5'
    } else if d == 6 {
        '6'
    } else if d == 7 {
        '7'
    } else if d == 8 {
        '8'
    } else {
        '9'
    }
}

/// The decimal text of a number, without leading zeros.
pub open spec fn decimal(n: nat) -> Seq<char>
    decreases n,
{
    if n < 10 {
        seq![digit_char(n)]
    } else {
        decimal(n / 10).push(digit_char(n % 10))
    }
}

/// The object key of a thumbnail: its directory, the upload time, the
/// form field's name and the file's name.
pub open spec fn thumbnail_key_spec(
    kind: ThumbnailKind,
    timestamp: u64,
    category: Seq<char>,
    file_name: Seq<char>,
) -> Seq<char> {
    kind_dir(kind) + decimal(timestamp as nat) + "_"@ + category + "_"@ + file_name
}

/// The public URL of an object.
pub open spec fn public_url_spec(base: Seq<char>, key: Seq<char>) -> Seq<char> {
    base + "/"@ + key
}

fn digit_str(d: u64) -> (r: &'static str)
    requires
        d < 10,
    ensures
        r@ == seq![digit_char(d as nat)],
{
    proof {
        reveal_strlit("0");
        reveal_strlit("1");
        reveal_strlit("2");
        reveal_strlit("3");
        reveal_strlit("4");
        reveal_strlit("5");
        reveal_strlit("6");
        reveal_strlit("7");
        reveal_strlit("8");
        reveal_strlit("9");
    }
    let r = if d == 0 {
        "0"
    } else if d == 1 {
        "1"
    } else if d == 2 {
        "2"
    } else if d == 3 {
        "3"
    } else if d == 4 {
        "4"
    } else if d == 5 {
        "5"
    } else if d == 6 {
        "6"
    } else if d == 7 {
        "7"
    } else if d == 8 {
        "8"
    } else {
        "9"
    };
    assert(r@ =~= seq![digit_char(d as nat)]);
    r
}

/// Appends the decimal text of `n`.
pub fn push_decimal(s: &mut String, n: u64)
    ensures
        final(s)@ == old(s)@ + decimal(n as nat),
    decreases n,
{
    if n >= 10 {
        push_decimal(s, n / 10);
    }
    s.append(digit_str(n % 10));
    assert(final(s)@ =~= old(s)@ + decimal(n as nat));
}

/// The object key of a thumbnail uploaded at `timestamp`.
pub fn thumbnail_key(kind: ThumbnailKind, timestamp: u64, category: &str, file_name: &str) -> (r:
    String)
    ensures
        r@ == thumbnail_key_spec(kind, timestamp, category@, file_name@),
{
    let mut s = match kind {
        ThumbnailKind::User => String::from_str("thumbnail/user/"),
        ThumbnailKind::Team => String::from_str("thumbnail/team/"),
        ThumbnailKind::Project => String::from_str("thumbnail/project/"),
    };
    push_decimal(&mut s, timestamp);
    s.append("_");
    s.append(category);
    s.append("_");
    s.append(file_name);
    assert(s@ =~= thumbnail_key_spec(kind, timestamp, category@, file_name@));
    s
}

/// The public URL of the object stored under `key`.
pub fn public_url(base: &str, key: &str) -> (r: String)
    ensures
        r@ == public_url_spec(base@, key@),
{
    let mut s = String::from_str(base);
    s.append("/");
    s.append(key);
    assert(s@ =~= public_url_spec(base@, key@));
    s
}

/// Relies on epoch_timestamp::Epoch::now: the current time in seconds since
/// the Unix epoch, whatever it is.
#[verifier::external_body]
fn epoch_now() -> (r: u64) {
    epoch_timestamp::Epoch::now()
}

/// The key and public URL of a thumbnail uploaded now.
pub fn thumbnail_target(kind: ThumbnailKind, category: &str, file_name: &str) -> (r: (
    String,
    String,
))
    ensures
        exists|t: u64|
            r.0@ == thumbnail_key_spec(kind, t, category@, file_name@) && r.1@ == public_url_spec(
                BUCKET_URL@,
                thumbnail_key_spec(kind, t, category@, file_name@),
            ),
{
    let now = epoch_now();
    let key = thumbnail_key(kind, now, category, file_name);
    let url = public_url(BUCKET_URL, key.as_str());
    (key, url)
}

} // verus!
