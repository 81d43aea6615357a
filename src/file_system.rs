//! What a file system entry is, from its metadata, its name, or its first bytes.
use vstd::prelude::*;

use crate::text::{chars_of, opt_text};

verus! {

/// What the metadata of one existing entry says about it.
pub struct FileFacts {
    /// The type bits of the entry's metadata mark a symbolic link.
    pub is_symlink: bool,
    /// The metadata of the link itself, read without following it, marks a
    /// symbolic link. This second reading covers file systems where the first
    /// one does not show the link.
    pub link_is_symlink: bool,
    pub is_block_device: bool,
    pub is_char_device: bool,
    pub is_fifo: bool,
    pub is_socket: bool,
    pub is_dir: bool,
    pub is_file: bool,
    /// The raw device identifier of a device node, where it could be read.
    pub rdev: Option<u64>,
    /// Where a symbolic link points, where it could be resolved.
    pub link_target: Option<String>,
}

/// The major device number: bits 8 to 19 of the raw identifier.
pub open spec fn major(rdev: u64) -> u64 {
    (rdev >> 8u64) & 0xfffu64
}

/// The minor device number: the low 8 bits of the raw identifier.
pub open spec fn minor(rdev: u64) -> u64 {
    rdev & 0xffu64
}

/// The (major, minor) pair of a block or character device.
pub fn get_device_numbers(rdev: u64) -> (r: (u64, u64))
    ensures
        r.0 == major(rdev),
        r.1 == minor(rdev),
        r.0 < 0x1000,
        r.1 < 0x100,
{
    let major: u64 = (rdev >> 8) & 0xfff;
    let minor: u64 = rdev & 0xff;
    assert((rdev >> 8u64) & 0xfffu64 < 0x1000 && rdev & 0xffu64 < 0x100) by (bit_vector);
    (major, minor)
}

pub open spec fn digit_char(d: nat) -> char {
    seq!['0', '1', '2', '3', '4', '5', '6', '7', '8', '9'][d as int]
}

/// The decimal numeral of `n`, without leading zeros.
pub open spec fn decimal(n: nat) -> Seq<char>
    decreases n,
{
    if n < 10 {
        seq![digit_char(n)]
    } else {
        decimal(n / 10).push(digit_char(n % 10))
    }
}

pub fn decimal_text(n: u64) -> (r: String)
    ensures
        r@ == decimal(n as nat),
    decreases n,
{
    let digits = "0123456789";
    proof {
        reveal_strlit("0123456789");
    }
    let d = (n % 10) as usize;
    let last = digits.substring_char(d, d + 1);
    assert(last@ =~= seq![digit_char(d as nat)]);
    if n < 10 {
        last.to_owned()
    } else {
        let mut r = decimal_text(n / 10);
        r.append(last);
        r
    }
}

/// How a device node is shown: its kind, then `(major/minor)` where the raw
/// identifier could be read.
pub open spec fn device_text(kind: Seq<char>, rdev: Option<u64>) -> Seq<char> {
    match rdev {
        Some(r) => kind + " ("@ + decimal(major(r) as nat) + "/"@ + decimal(minor(r) as nat)
            + ")"@,
        None => kind,
    }
}

pub open spec fn link_text(target: Option<String>) -> Seq<char> {
    match target {
        Some(t) => "symbolic link to "@ + t@,
        None => "symbolic link"@,
    }
}

/// The description of an entry. The first test that holds decides: a symbolic
/// link (by either reading), block device, character device, fifo, socket,
/// directory, regular file; anything else is `???`. Regular files are not
/// looked into.
pub open spec fn file_type_text(f: FileFacts) -> Seq<char> {
    if f.is_symlink || f.link_is_symlink {
        link_text(f.link_target)
    } else if f.is_block_device {
        device_text("block special"@, f.rdev)
    } else if f.is_char_device {
        device_text("character special"@, f.rdev)
    } else if f.is_fifo {
        "fifo"@
    } else if f.is_socket {
        "socket"@
    } else if f.is_dir {
        "directory"@
    } else if f.is_file {
        "ASCII text"@
    } else {
        "???"@
    }
}

/// The metadata of a regular file: no link by either reading, and no other
/// kind of entry.
pub open spec fn is_regular_file(f: FileFacts) -> bool {
    &&& f.is_file
    &&& !f.is_symlink
    &&& !f.link_is_symlink
    &&& !f.is_block_device
    &&& !f.is_char_device
    &&& !f.is_fifo
    &&& !f.is_socket
    &&& !f.is_dir
}

/// A symbolic link is reported as a link, `symbolic link to <target>` (or
/// `symbolic link`), whatever else its metadata says; never as `directory`.
pub proof fn lemma_symlink_first(f: FileFacts)
    requires
        f.is_symlink || f.link_is_symlink,
    ensures
        file_type_text(f) == link_text(f.link_target),
        file_type_text(f) != "directory"@,
{
    reveal_strlit("symbolic link to ");
    reveal_strlit("symbolic link");
    reveal_strlit("directory");
    let t = file_type_text(f);
    assert(t[0] == 's');
    assert("directory"@[0] == 'd');
}

fn device_description(kind: &str, rdev: Option<u64>) -> (r: String)
    ensures
        r@ == device_text(kind@, rdev),
{
    match rdev {
        Some(raw) => {
            let (major, minor) = get_device_numbers(raw);
            let mut r = kind.to_owned();
            r.append(" (");
            r.append(decimal_text(major).as_str());
            r.append("/");
            r.append(decimal_text(minor).as_str());
            r.append(")");
            r
        },
        None => kind.to_owned(),
    }
}

/// The description of an entry from its metadata (see `file_type_text`).
pub fn get_file_type(facts: &FileFacts) -> (r: String)
    ensures
        r@ == file_type_text(*facts),
{
    if facts.is_symlink || facts.link_is_symlink {
        match &facts.link_target {
            Some(t) => {
                let mut r = "symbolic link to ".to_owned();
                r.append(t.as_str());
                r
            },
            None => "symbolic link".to_owned(),
        }
    } else if facts.is_block_device {
        device_description("block special", facts.rdev)
    } else if facts.is_char_device {
        device_description("character special", facts.rdev)
    } else if facts.is_fifo {
        "fifo".to_owned()
    } else if facts.is_socket {
        "socket".to_owned()
    } else if facts.is_dir {
        "directory".to_owned()
    } else if facts.is_file {
        "ASCII text".to_owned()
    } else {
        "???".to_owned()
    }
}

/// What follows the last `/` of `p` (all of `p` where it has none).
pub open spec fn last_piece(p: Seq<char>) -> Seq<char>
    decreases p.len(),
{
    if p.len() == 0 || p.last() == '/' {
        Seq::empty()
    } else {
        last_piece(p.drop_last()).push(p.last())
    }
}

/// The final component of a `/`-separated path, as `Path::file_name` reads it:
/// trailing `/` and `.` components are passed over, and a path that ends in
/// `..`, or has no component left, has none.
pub open spec fn file_name(p: Seq<char>) -> Option<Seq<char>>
    decreases p.len(),
{
    if p.len() == 0 {
        None
    } else if p.last() == '/' {
        file_name(p.drop_last())
    } else if p == seq!['.'] {
        None
    } else if p.len() >= 2 && p.last() == '.' && p[p.len() - 2] == '/' {
        file_name(p.drop_last())
    } else if last_piece(p) == seq!['.', '.'] {
        None
    } else {
        Some(last_piece(p))
    }
}

/// The index of the last `.` in `name`, or -1 where it has none.
pub open spec fn last_dot(name: Seq<char>) -> int
    decreases name.len(),
{
    if name.len() == 0 {
        -1
    } else if name.last() == '.' {
        name.len() - 1
    } else {
        last_dot(name.drop_last())
    }
}

/// The extension of a file name: what follows its last `.`, where that dot is
/// not the name's first character (`.profile` has none).
pub open spec fn name_extension(name: Seq<char>) -> Option<Seq<char>> {
    if last_dot(name) > 0 {
        Some(name.skip(last_dot(name) + 1))
    } else {
        None
    }
}

/// The extension shown for a path, `???` where it has none.
pub open spec fn extension_text(p: Seq<char>) -> Seq<char> {
    match file_name(p) {
        Some(name) => match name_extension(name) {
            Some(e) => e,
            None => "???"@,
        },
        None => "???"@,
    }
}

/// Where the final component of `p` starts and ends, if it has one.
fn file_name_bounds(p: &Vec<char>) -> (r: Option<(usize, usize)>)
    ensures
        match r {
            Some((lo, hi)) => lo <= hi <= p.len() && file_name(p@) == Some(
                p@.subrange(lo as int, hi as int),
            ),
            None => file_name(p@) is None,
        },
{
    let mut hi: usize = p.len();
    assert(p@.take(hi as int) =~= p@);
    loop
        invariant
            hi <= p.len(),
            file_name(p@) == file_name(p@.take(hi as int)),
        ensures
            0 < hi <= p.len(),
            file_name(p@) == file_name(p@.take(hi as int)),
            p@[hi - 1] != '/',
            !(hi == 1 && p@[0] == '.'),
            !(hi >= 2 && p@[hi - 1] == '.' && p@[hi - 2] == '/'),
        decreases hi,
    {
        let q = Ghost(p@.take(hi as int));
        if hi == 0 {
            return None;
        }
        assert(q@.drop_last() =~= p@.take(hi - 1));
        if p[hi - 1] == '/' {
            hi = hi - 1;
        } else if hi == 1 && p[0] == '.' {
            assert(q@ =~= seq!['.']);
            return None;
        } else if hi >= 2 && p[hi - 1] == '.' && p[hi - 2] == '/' {
            hi = hi - 1;
        } else {
            break;
        }
    }
    let ghost q = p@.take(hi as int);
    assert(q != seq!['.']) by {
        if q == seq!['.'] {
            assert(q[0] == p@[0]);
        }
    }
    let mut lo: usize = hi;
    assert(p@.subrange(lo as int, hi as int) =~= Seq::<char>::empty());
    while lo > 0 && p[lo - 1] != '/'
        invariant
            lo <= hi <= p.len(),
            q == p@.take(hi as int),
            last_piece(q) == last_piece(p@.take(lo as int)) + p@.subrange(lo as int, hi as int),
        decreases lo,
    {
        assert(p@.take(lo as int).drop_last() =~= p@.take(lo - 1));
        assert(p@.subrange(lo - 1, hi as int) =~= seq![p@[lo - 1]] + p@.subrange(
            lo as int,
            hi as int,
        ));
        lo = lo - 1;
    }
    assert(last_piece(p@.take(lo as int)) =~= Seq::<char>::empty());
    assert(last_piece(q) =~= p@.subrange(lo as int, hi as int));
    if hi - lo == 2 && p[lo] == '.' && p[lo + 1] == '.' {
        assert(p@.subrange(lo as int, hi as int) =~= seq!['.', '.']);
        None
    } else {
        proof {
            if hi - lo == 2 {
                assert(p@.subrange(lo as int, hi as int)[0] == p@[lo as int]);
                assert(p@.subrange(lo as int, hi as int)[1] == p@[lo + 1]);
            }
        }
        Some((lo, hi))
    }
}

/// The extension of a path's final component, `???` where it has none; the
/// rule is that of `Path::extension`.
pub fn get_file_extension(path: &str) -> (r: String)
    ensures
        r@ == extension_text(path@),
{
    let p = chars_of(path);
    match file_name_bounds(&p) {
        Some((lo, hi)) => {
            let ghost name = p@.subrange(lo as int, hi as int);
            let mut i: usize = hi;
            while i > lo && p[i - 1] != '.'
                invariant
                    lo <= i <= hi <= p.len(),
                    name == p@.subrange(lo as int, hi as int),
                    last_dot(name) == last_dot(p@.subrange(lo as int, i as int)),
                decreases i,
            {
                assert(p@.subrange(lo as int, i as int).drop_last() =~= p@.subrange(
                    lo as int,
                    i - 1,
                ));
                i = i - 1;
            }
            if i - lo > 1 {
                assert(last_dot(name) == i - 1 - lo);
                assert(name.skip(i - lo) =~= p@.subrange(i as int, hi as int));
                path.substring_char(i, hi).to_owned()
            } else {
                "???".to_owned()
            }
        },
        None => "???".to_owned(),
    }
}

/// The first MIME type that mime_guess's table gives for the extension of
/// `path`, if any.
pub uninterp spec fn guessed_mime(path: Seq<char>) -> Option<Seq<char>>;

/// The MIME type that infer's signature matchers find for the leading bytes
/// of a file, if any.
pub uninterp spec fn sniffed_mime(head: Seq<u8>) -> Option<Seq<char>>;

/// Relies on `mime_guess::from_path(..).first()`: a lookup of the path's
/// extension in a fixed table, with no disk access, so the answer depends on
/// the path alone; every entry of the table is a non-empty media type.
#[verifier::external_body]
fn guess_by_extension(path: &str) -> (r: Option<String>)
    ensures
        opt_text(r) == guessed_mime(path@),
        r matches Some(m) ==> m@.len() > 0,
{
    mime_guess::from_path(path).first().map(|m| m.to_string())
}

/// Relies on `infer::get`: the first of infer's fixed signature matchers that
/// accepts the bytes, so the answer depends on the bytes alone; each matcher
/// carries a non-empty MIME type.
#[verifier::external_body]
fn guess_by_signature(head: &[u8]) -> (r: Option<String>)
    ensures
        opt_text(r) == sniffed_mime(head@),
        r matches Some(m) ==> m@.len() > 0,
{
    infer::get(head).map(|t| t.to_string())
}

/// The MIME type reported for an entry: the guess where there is one, else
/// `inode/directory` for a directory and `text/plain` for anything else.
pub open spec fn mime_text(guess: Option<Seq<char>>, is_dir: bool) -> Seq<char> {
    match guess {
        Some(m) => m,
        None => if is_dir {
            "inode/directory"@
        } else {
            "text/plain"@
        },
    }
}

/// The MIME type reported for a guess, with the fallback of `mime_text`.
pub fn resolve_mime(guess: Option<String>, is_dir: bool) -> (r: String)
    ensures
        r@ == mime_text(opt_text(guess), is_dir),
        (guess matches Some(m) ==> m@.len() > 0) ==> r@.len() > 0,
{
    proof {
        reveal_strlit("inode/directory");
        reveal_strlit("text/plain");
    }
    match guess {
        Some(m) => m,
        None => if is_dir {
            "inode/directory".to_owned()
        } else {
            "text/plain".to_owned()
        },
    }
}

/// The MIME type of a path by its extension, with the fallback of `mime_text`.
pub fn get_mime_type(path: &str, is_dir: bool) -> (r: String)
    ensures
        r@ == mime_text(guessed_mime(path@), is_dir),
        r@.len() > 0,
{
    resolve_mime(guess_by_extension(path), is_dir)
}

/// The MIME type of a file by the signature of its leading bytes (`None` where
/// they could not be read), with the fallback of `mime_text`.
pub fn get_mime_type_by_content(head: &Option<Vec<u8>>, is_dir: bool) -> (r: String)
    ensures
        r@ == mime_text(
            match head {
                Some(h) => sniffed_mime(h@),
                None => None,
            },
            is_dir,
        ),
        r@.len() > 0,
{
    let guess = match head {
        Some(h) => guess_by_signature(h.as_slice()),
        None => None,
    };
    resolve_mime(guess, is_dir)
}

} // verus!
