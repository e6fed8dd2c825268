//! Reading the version that the `mysql` client prints, and choosing the Docker
//! image whose `mysqldump` matches a server.
use vstd::prelude::*;

use crate::text::{
    chars_of, concat_str, decimal_string, decimal_text, digits_end, digits_end_at, find_digit, find_digit_at,
    first_index, lemma_digits_end, lemma_find_digit, lemma_first_index_is, lemma_first_index_none, parse_u32,
    parse_unsigned, push_arg, texts,
};

verus! {

broadcast use vstd::string::group_string_axioms;

/// Why the output of `SELECT VERSION();` could not be read.
#[derive(Debug, Clone, Copy, PartialEq, Eq)]
pub enum MySqlVersionParseError {
    /// The major number of `major.minor` does not fit in 32 bits.
    Major,
    /// The minor number of `major.minor` does not fit in 32 bits.
    Minor,
    /// The output holds no number that fits in 32 bits.
    NoVersion,
}

/// The pattern `(\d+)\.(\d+)(?:\.|\-)` matches at `i`.
pub open spec fn dotted_pair_match_at(s: Seq<char>, i: int) -> bool {
    let e1 = digits_end(s, i);
    let e2 = digits_end(s, e1 + 1);
    &&& 0 <= i < s.len()
    &&& e1 > i
    &&& e1 < s.len()
    &&& s[e1] == '.'
    &&& e2 > e1 + 1
    &&& e2 < s.len()
    &&& (s[e2] == '.' || s[e2] == '-')
}

/// The two captured digit runs of the leftmost match of `(\d+)\.(\d+)(?:\.|\-)`.
pub open spec fn dotted_pair_captures(s: Seq<char>) -> Option<(Seq<char>, Seq<char>)> {
    match first_index(s.len() as int, |i: int| dotted_pair_match_at(s, i)) {
        Some(i) => {
            let e1 = digits_end(s, i);
            Some((s.subrange(i, e1), s.subrange(e1 + 1, digits_end(s, e1 + 1))))
        },
        None => None,
    }
}

/// The values of the successive runs of digits of `s` from `from` on, leaving
/// out those that do not fit in 32 bits.
pub open spec fn numbers_from(s: Seq<char>, from: int) -> Seq<u32>
    decreases s.len() - from,
    when 0 <= from
{
    let p = find_digit(s, from);
    if p >= s.len() {
        Seq::empty()
    } else {
        let e = digits_end(s, p);
        proof {
            lemma_find_digit(s, from);
            lemma_digits_end(s, p);
        }
        match parse_u32(s.subrange(p, e)) {
            Some(v) => seq![v] + numbers_from(s, e),
            None => numbers_from(s, e),
        }
    }
}

/// What the version output `s` reads as: the `major.minor` of the leftmost
/// `(\d+)\.(\d+)` followed by `.` or `-`; failing that, the first two numbers in
/// the output, or the only one with minor `0`.
pub open spec fn mysql_client_version(s: Seq<char>) -> Result<(u32, u32), MySqlVersionParseError> {
    match dotted_pair_captures(s) {
        Some((a, b)) => match parse_u32(a) {
            None => Err(MySqlVersionParseError::Major),
            Some(major) => match parse_u32(b) {
                None => Err(MySqlVersionParseError::Minor),
                Some(minor) => Ok((major, minor)),
            },
        },
        None => {
            let numbers = numbers_from(s, 0);
            if numbers.len() >= 2 {
                Ok((numbers[0], numbers[1]))
            } else if numbers.len() == 1 {
                Ok((numbers[0], 0))
            } else {
                Err(MySqlVersionParseError::NoVersion)
            }
        },
    }
}

fn dotted_pair_match_exec(s: &[char], i: usize) -> (r: bool)
    requires
        i < s@.len(),
    ensures
        r == dotted_pair_match_at(s@, i as int),
{
    let n = s.len();
    let e1 = digits_end_at(s, i);
    if e1 == i || e1 >= n || s[e1] != '.' {
        return false;
    }
    let e2 = digits_end_at(s, e1 + 1);
    e2 > e1 + 1 && e2 < n && (s[e2] == '.' || s[e2] == '-')
}

fn find_dotted_pair(s: &[char]) -> (r: Option<(usize, usize, usize)>)
    ensures
        match r {
            Some((i, e1, e2)) => {
                &&& i < e1 < e2 <= s@.len()
                &&& dotted_pair_captures(s@) == Some((s@.subrange(i as int, e1 as int), s@.subrange(e1 + 1, e2 as int)))
            },
            None => dotted_pair_captures(s@) is None,
        },
{
    let n = s.len();
    let mut i: usize = 0;
    while i < n
        invariant
            i <= n,
            n == s@.len(),
            forall|j: int| 0 <= j < i ==> !#[trigger] dotted_pair_match_at(s@, j),
        decreases n - i,
    {
        if dotted_pair_match_exec(s, i) {
            let e1 = digits_end_at(s, i);
            let e2 = digits_end_at(s, e1 + 1);
            proof {
                let p = |k: int| dotted_pair_match_at(s@, k);
                assert(p(i as int));
                assert forall|j: int| 0 <= j < i implies !#[trigger] p(j) by {
                    assert(!dotted_pair_match_at(s@, j));
                }
                lemma_first_index_is(s@.len() as int, p, i as int);
            }
            return Some((i, e1, e2));
        }
        i = i + 1;
    }
    proof {
        let p = |k: int| dotted_pair_match_at(s@, k);
        assert forall|j: int| 0 <= j <= s@.len() implies !#[trigger] p(j) by {
            if j < s@.len() {
                assert(!dotted_pair_match_at(s@, j));
            }
        }
        lemma_first_index_none(s@.len() as int, p);
    }
    None
}

/// The first two entries of `numbers_from(s, 0)`, as far as there are any.
fn first_two_numbers(s: &[char]) -> (r: Vec<u32>)
    ensures
        r@ == numbers_from(s@, 0).take(if numbers_from(s@, 0).len() < 2 { numbers_from(s@, 0).len() as int } else { 2 }),
{
    let n = s.len();
    let mut found: Vec<u32> = Vec::new();
    let mut pos: usize = 0;
    while pos < n && found.len() < 2
        invariant
            pos <= n,
            n == s@.len(),
            found@.len() <= 2,
            numbers_from(s@, 0) == found@ + numbers_from(s@, pos as int),
        decreases n - pos,
    {
        let p = find_digit_at(s, pos);
        proof {
            lemma_find_digit(s@, pos as int);
        }
        if p >= n {
            pos = n;
        } else {
            let e = digits_end_at(s, p);
            proof {
                lemma_digits_end(s@, p as int);
            }
            match parse_unsigned(s, p, e, 4294967295) {
                Some(v) => {
                    let ghost before = found@;
                    found.push(v as u32);
                    proof {
                        assert(numbers_from(s@, pos as int) == seq![v as u32] + numbers_from(s@, e as int));
                        assert(found@ + numbers_from(s@, e as int) =~= before + (seq![v as u32] + numbers_from(s@, e as int)));
                    }
                },
                None => {},
            }
            pos = e;
        }
    }
    proof {
        let all = numbers_from(s@, 0);
        if pos >= n {
            assert(numbers_from(s@, pos as int) == Seq::<u32>::empty());
            assert(all =~= found@);
        }
        assert(all.take(found@.len() as int) =~= found@);
    }
    found
}

/// Reads the version printed by `mysql --execute="SELECT VERSION();"`; see
/// `mysql_client_version`.
pub fn parse_mysql_version(version_output: &str) -> (r: Result<(u32, u32), MySqlVersionParseError>)
    ensures
        r == mysql_client_version(version_output@),
{
    let s = chars_of(version_output);
    match find_dotted_pair(s.as_slice()) {
        Some((i, e1, e2)) => {
            let major = match parse_unsigned(s.as_slice(), i, e1, 4294967295) {
                Some(v) => v as u32,
                None => return Err(MySqlVersionParseError::Major),
            };
            let minor = match parse_unsigned(s.as_slice(), e1 + 1, e2, 4294967295) {
                Some(v) => v as u32,
                None => return Err(MySqlVersionParseError::Minor),
            };
            Ok((major, minor))
        },
        None => {
            let numbers = first_two_numbers(s.as_slice());
            if numbers.len() >= 2 {
                Ok((numbers[0], numbers[1]))
            } else if numbers.len() == 1 {
                Ok((numbers[0], 0))
            } else {
                Err(MySqlVersionParseError::NoVersion)
            }
        },
    }
}

/// The version assumed where the server's version cannot be read: 8.0,
/// which has images.
pub open spec fn fallback_mysql_version() -> (u32, u32) {
    (8, 0)
}

/// The server version to work with: the one read, or 8.0 where reading
/// failed.
pub fn version_or_default(read: Result<(u32, u32), MySqlVersionParseError>) -> (r: (u32, u32))
    ensures
        r == match read {
            Ok(v) => v,
            Err(_) => fallback_mysql_version(),
        },
{
    match read {
        Ok(v) => v,
        Err(_) => (8, 0),
    }
}

/// The MySQL image used to dump a server of major version `major`: 5.7 for
/// 5, 8.0 for 8 to 11, the latest otherwise.
pub open spec fn mysql_image_for(major: u32) -> Seq<char> {
    if major == 5 {
        "mysql:5.7"@
    } else if 8 <= major <= 11 {
        "mysql:8.0"@
    } else {
        "mysql:latest"@
    }
}

/// See `mysql_image_for`.
pub fn docker_image(major: u32) -> (r: &'static str)
    ensures
        r@ == mysql_image_for(major),
        major == 5 ==> r@ == "mysql:5.7"@,
        8 <= major <= 11 ==> r@ == "mysql:8.0"@,
        major != 5 && !(8 <= major <= 11) ==> r@ == "mysql:latest"@,
{
    if major == 5 {
        "mysql:5.7"
    } else if 8 <= major && major <= 11 {
        "mysql:8.0"
    } else {
        "mysql:latest"
    }
}

/// The image follows the server's major version: `mysql:5.7` for a MySQL 5
/// server, the version-matched `mysql:8.0` for a MySQL 8 server and, for want
/// of newer tags, for 9, 10 and 11 too; `mysql:latest` for every other major
/// version. No two of these images are the same.
pub proof fn lemma_image_follows_the_server(major: u32)
    ensures
        major == 5 ==> mysql_image_for(major) == "mysql:5.7"@,
        major == 8 ==> mysql_image_for(major) == "mysql:8.0"@,
        9 <= major <= 11 ==> mysql_image_for(major) == "mysql:8.0"@,
        major != 5 && !(8 <= major <= 11) ==> mysql_image_for(major) == "mysql:latest"@,
        "mysql:5.7"@ != "mysql:8.0"@ && "mysql:8.0"@ != "mysql:latest"@ && "mysql:5.7"@ != "mysql:latest"@,
{
    reveal_strlit("mysql:5.7");
    reveal_strlit("mysql:8.0");
    reveal_strlit("mysql:latest");
    assert("mysql:5.7"@[6] != "mysql:8.0"@[6]);
    assert("mysql:8.0"@.len() != "mysql:latest"@.len());
}

/// The arguments of `mysql` asking the server for its version.
pub open spec fn client_version_args(host: Seq<char>, port: u16, username: Seq<char>, password: Option<Seq<char>>) -> Seq<Seq<char>> {
    let base = seq![
        "--host="@ + host,
        "--port="@ + decimal_text(port as nat),
        "--user="@ + username,
        "--protocol=tcp"@,
        "--execute=SELECT VERSION();"@,
    ];
    match password {
        Some(p) => base.push("--password="@ + p),
        None => base,
    }
}

/// See `client_version_args`.
pub fn version_query_args(host: &str, port: u16, username: &str, password: Option<&str>) -> (v: Vec<String>)
    ensures
        texts(v@) == client_version_args(host@, port, username@, match password {
            Some(p) => Some(p@),
            None => None,
        }),
{
    let mut v: Vec<String> = Vec::new();
    let p = decimal_string(port as u64);
    let h = concat_str("--host=", host);
    let q = concat_str("--port=", p.as_str());
    let u = concat_str("--user=", username);
    push_arg(&mut v, h.as_str());
    push_arg(&mut v, q.as_str());
    push_arg(&mut v, u.as_str());
    push_arg(&mut v, "--protocol=tcp");
    push_arg(&mut v, "--execute=SELECT VERSION();");
    if let Some(pass) = password {
        let w = concat_str("--password=", pass);
        push_arg(&mut v, w.as_str());
    }
    proof {
        assert(texts(v@) =~= client_version_args(host@, port, username@, match password {
            Some(p) => Some(p@),
            None => None,
        }));
    }
    v
}

/// The arguments of `docker` that dump a database with the image of
/// `image`.
pub open spec fn docker_dump_args(image: Seq<char>, database: Seq<char>, host: Seq<char>, port: u16, username: Seq<char>, password: Option<Seq<char>>) -> Seq<Seq<char>> {
    let base = seq![
        "run"@,
        "--rm"@,
        "--network=host"@,
        "-i"@,
        image,
        "mysqldump"@,
        "--host="@ + host,
        "--port="@ + decimal_text(port as nat),
        "--user="@ + username,
        "--protocol=tcp"@, "--single-transaction"@, "--routines"@, "--triggers"@, "--events"@, "--set-gtid-purged=OFF"@, "--no-tablespaces"@, "--column-statistics=0"@,
        database,
    ];
    match password {
        Some(p) => base.push("--password="@ + p),
        None => base,
    }
}

/// See `docker_dump_args`; the image is chosen by the server's major
/// version (`mysql_image_for`).
pub fn docker_mysqldump_args(
    database: &str,
    host: &str,
    port: u16,
    username: &str,
    password: Option<&str>,
    server_version: (u32, u32),
) -> (v: Vec<String>)
    ensures
        texts(v@) == docker_dump_args(mysql_image_for(server_version.0), database@, host@, port, username@, match password {
            Some(p) => Some(p@),
            None => None,
        }),
{
    let mut v: Vec<String> = Vec::new();
    let image = docker_image(server_version.0);
    let p = decimal_string(port as u64);
    let h = concat_str("--host=", host);
    let q = concat_str("--port=", p.as_str());
    let u = concat_str("--user=", username);
    push_arg(&mut v, "run");
    push_arg(&mut v, "--rm");
    push_arg(&mut v, "--network=host");
    push_arg(&mut v, "-i");
    push_arg(&mut v, image);
    push_arg(&mut v, "mysqldump");
    push_arg(&mut v, h.as_str());
    push_arg(&mut v, q.as_str());
    push_arg(&mut v, u.as_str());
    push_arg(&mut v, "--protocol=tcp");
    push_arg(&mut v, "--single-transaction");
    push_arg(&mut v, "--routines");
    push_arg(&mut v, "--triggers");
    push_arg(&mut v, "--events");
    push_arg(&mut v, "--set-gtid-purged=OFF");
    push_arg(&mut v, "--no-tablespaces");
    push_arg(&mut v, "--column-statistics=0");
    push_arg(&mut v, database);
    if let Some(pass) = password {
        let w = concat_str("--password=", pass);
        push_arg(&mut v, w.as_str());
    }
    proof {
        assert(texts(v@) =~= docker_dump_args(mysql_image_for(server_version.0), database@, host@, port, username@, match password {
            Some(p) => Some(p@),
            None => None,
        }));
    }
    v
}

} // verus!
