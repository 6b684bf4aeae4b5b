//! How stored images are named.
//!
//! Every image is stored under a freshly drawn identifier followed by a fixed
//! extension, in one directory.

use vstd::prelude::*;
use vstd::string::StringExecFns;

verus! {

/// Whether `c` is a decimal digit or one of the letters `a` to `f`.
pub open spec fn is_lower_hex(c: char) -> bool {
    ('0' <= c && c <= '9') || ('a' <= c && c <= 'f')
}

/// Whether `s` has the shape of a random identifier: 32 lower-case
/// hexadecimal digits in groups of 8, 4, 4, 4 and 12 with a hyphen between
/// groups, the third group starting with `4` and the fourth with one of `8`,
/// `9`, `a`, `b`.
pub open spec fn is_blob_id(s: Seq<char>) -> bool {
    &&& s.len() == 36
    &&& forall|i: int|
        0 <= i < 36 ==> if i == 8 || i == 13 || i == 18 || i == 23 {
            #[trigger] s[i] == '-'
        } else {
            is_lower_hex(s[i])
        }
    &&& s[14] == '4'
    &&& (s[19] == '8' || s[19] == '9' || s[19] == 'a' || s[19] == 'b')
}

/// The extension of every stored image.
pub open spec fn image_extension() -> Seq<char> {
    ".png"@
}

/// The directory that holds the stored images.
pub open spec fn image_dir() -> Seq<char> {
    "./images/"@
}

/// The file name of the image stored under `blob_id`.
pub open spec fn image_file_name(blob_id: Seq<char>) -> Seq<char> {
    blob_id + image_extension()
}

/// Draws a fresh identifier: calls `uuid::Uuid::new_v4` and writes the result
/// out as `Uuid`'s `Display` does.
///
/// Not proved, but taken from the code of `uuid`: that every identifier so
/// written has the shape of [`is_blob_id`]. `new_v4` sets the version and
/// variant bits of 128 random bits, and `Display` writes them as lower-case
/// hexadecimal digits in hyphenated groups. Which identifier comes back is
/// left open: it is random. `new_v4` panics if the operating system cannot
/// supply random bytes.
#[verifier::external_body]
pub(crate) fn random_blob_id() -> (id: String)
    ensures
        is_blob_id(id@),
{
    uuid::Uuid::new_v4().to_string()
}

/// The file name under which the image with identifier `blob_id` is stored.
pub fn image_file_for(blob_id: String) -> (name: String)
    ensures
        name@ == image_file_name(blob_id@),
{
    blob_id.concat(".png")
}

/// The path of the stored image `file_name`, relative to the directory in
/// which the service runs.
pub fn image_path(file_name: &str) -> (path: String)
    ensures
        path@ == image_dir() + file_name@,
{
    "./images/".to_owned().concat(file_name)
}

/// There are identifiers of the shape that [`is_blob_id`] asks for.
pub proof fn lemma_blob_id_exists()
    ensures
        exists|blob_id: Seq<char>| is_blob_id(blob_id),
{
    reveal_strlit("00000000-0000-4000-8000-000000000000");
    let blob_id = "00000000-0000-4000-8000-000000000000"@;
    assert(is_blob_id(blob_id));
}

/// The file name of a stored image holds no path separator, so the image
/// lies directly in the image directory.
pub proof fn lemma_image_file_name_is_plain(blob_id: Seq<char>)
    requires
        is_blob_id(blob_id),
    ensures
        image_file_name(blob_id).len() == 40,
        forall|i: int| 0 <= i < 40 ==> image_file_name(blob_id)[i] != '/',
{
    reveal_strlit(".png");
    let name = image_file_name(blob_id);
    assert forall|i: int| 0 <= i < 40 implies name[i] != '/' by {
        if i < 36 {
            assert(name[i] == blob_id[i]);
        }
    }
}

} // verus!
