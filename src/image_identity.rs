//! Content-addressed names for rendered diagrams.
use vstd::prelude::*;

verus! {

/// The lowercase hexadecimal SHA-1 digest of the UTF-8 bytes of `text`.
pub uninterp spec fn sha1_hex_of(text: Seq<char>) -> Seq<char>;

pub open spec fn is_lower_hex_digit(c: char) -> bool {
    ('0' <= c && c <= '9') || ('a' <= c && c <= 'f')
}

/// Relies on `sha1_smol::Sha1::from` and the `Display` impl of
/// `sha1_smol::Digest`, which prints the five state words as `{:08x}` each:
/// forty lowercase hexadecimal digits that depend on the text alone.
#[verifier::external_body]
pub(crate) fn sha1_hex(text: &str) -> (r: String)
    ensures
        r@ == sha1_hex_of(text@),
        r@.len() == 40,
        forall|i: int| 0 <= i < r@.len() ==> is_lower_hex_digit(#[trigger] r@[i]),
{
    sha1_smol::Sha1::from(text).digest().to_string()
}

/// `name` placed in the directory `root`; an empty root is the current
/// directory.
pub open spec fn join_path(root: Seq<char>, name: Seq<char>) -> Seq<char> {
    if root.len() == 0 {
        name
    } else if root.last() == '/' {
        root + name
    } else {
        root + seq!['/'] + name
    }
}

/// `stem` with the extension `ext`.
pub open spec fn with_extension(stem: Seq<char>, ext: Seq<char>) -> Seq<char> {
    stem + seq!['.'] + ext
}

/// The file name of the image rendered from `text` in the format `format`.
pub open spec fn image_file_name(text: Seq<char>, format: Seq<char>) -> Seq<char> {
    with_extension(sha1_hex_of(text), format)
}

/// Where the image rendered from `text` is cached under `root`.
pub open spec fn image_path(root: Seq<char>, text: Seq<char>, format: Seq<char>) -> Seq<char> {
    join_path(root, image_file_name(text, format))
}

/// Joins `name` onto the directory `root`.
pub fn path_join(root: &str, name: &str) -> (r: String)
    ensures
        r@ == join_path(root@, name@),
{
    let n: usize = root.unicode_len();
    if n == 0 {
        String::from_str(name)
    } else {
        let mut r = String::from_str(root);
        if root.get_char(n - 1) != '/' {
            r.append("/");
            proof {
                reveal_strlit("/");
            }
        }
        r.append(name);
        proof {
            assert(root@.last() == root@[n - 1]);
        }
        r
    }
}

/// Appends the extension `ext` to `stem`.
pub fn add_extension(stem: &str, ext: &str) -> (r: String)
    ensures
        r@ == with_extension(stem@, ext@),
{
    let mut r = String::from_str(stem);
    r.append(".");
    proof {
        reveal_strlit(".");
    }
    r.append(ext);
    r
}

/// The path under `img_root` at which the image of `plantuml_code` in the
/// format `image_format` is cached.
pub fn get_image_filename(img_root: &str, plantuml_code: &str, image_format: &str) -> (r: String)
    ensures
        r@ == image_path(img_root@, plantuml_code@, image_format@),
{
    let digest = sha1_hex(plantuml_code);
    let name = add_extension(digest.as_str(), image_format);
    path_join(img_root, name.as_str())
}

/// The cached path is a function of the output root, the diagram text and
/// the format: two computations from the same inputs give the same path.
pub proof fn image_path_is_deterministic(
    root: Seq<char>,
    text: Seq<char>,
    format: Seq<char>,
    first: Seq<char>,
    second: Seq<char>,
)
    requires
        first == image_path(root, text, format),
        second == image_path(root, text, format),
    ensures
        first == second,
{
}

/// Under one output root and one format, two diagram texts share a cached
/// path exactly when their digests agree; texts with distinct digests never
/// write over each other's image.
pub proof fn image_path_identifies_digest(
    root: Seq<char>,
    text1: Seq<char>,
    text2: Seq<char>,
    format: Seq<char>,
)
    ensures
        image_path(root, text1, format) == image_path(root, text2, format) <==> sha1_hex_of(text1)
            == sha1_hex_of(text2),
{
    let h1 = sha1_hex_of(text1);
    let h2 = sha1_hex_of(text2);
    let p1 = image_path(root, text1, format);
    let p2 = image_path(root, text2, format);
    let tail = seq!['.'] + format;
    let pre = if root.len() == 0 {
        Seq::<char>::empty()
    } else if root.last() == '/' {
        root
    } else {
        root + seq!['/']
    };
    assert(p1 =~= pre + h1 + tail);
    assert(p2 =~= pre + h2 + tail);
    if p1 == p2 {
        assert(h1.len() == h2.len());
        assert(h1 =~= p1.subrange(pre.len() as int, (pre.len() + h1.len()) as int));
        assert(h2 =~= p2.subrange(pre.len() as int, (pre.len() + h2.len()) as int));
    }
}

} // verus!
