//! Upload validation and content-addressed keys.
//!
//! An upload is accepted only when its declared media type starts with the
//! image indicator `image/`. The key the original bytes are archived under is
//! content-derived: the SHA-256 digest of the bytes, in hexadecimal, followed
//! by a dot and the extension of the uploaded file's name, so that identical
//! content with the same extension always collides on the same key.

use vstd::prelude::*;
use vstd::string::StrSliceExecFns;
use vstd::string::StringExecFns;

verus! {

/// Whether a declared media type names an image: it starts with `image/`.
pub open spec fn spec_is_image_media_type(s: Seq<char>) -> bool {
    &&& s.len() >= 6
    &&& s[0] == 'i'
    &&& s[1] == 'm'
    &&& s[2] == 'a'
    &&& s[3] == 'g'
    &&& s[4] == 'e'
    &&& s[5] == '/'
}

/// Whether the (possibly absent) declared media type of an upload names an
/// image; an absent media type is rejected.
pub open spec fn spec_accepts_upload(content_type: Option<Seq<char>>) -> bool {
    match content_type {
        Some(s) => spec_is_image_media_type(s),
        None => false,
    }
}

/// Decides whether a declared media type names an image.
pub fn is_image_media_type(ct: &str) -> (r: bool)
    ensures
        r == spec_is_image_media_type(ct@),
{
    let n: usize = ct.unicode_len();
    if n < 6 {
        return false;
    }
    ct.get_char(0) == 'i' && ct.get_char(1) == 'm' && ct.get_char(2) == 'a' && ct.get_char(3)
        == 'g' && ct.get_char(4) == 'e' && ct.get_char(5) == '/'
}

/// Position of the last `.` in a name, if any.
pub open spec fn rfind_dot(s: Seq<char>) -> Option<int>
    decreases s.len(),
{
    if s.len() == 0 {
        None
    } else if s[s.len() - 1] == '.' {
        Some(s.len() - 1)
    } else {
        rfind_dot(s.drop_last())
    }
}

/// The extension of a file name: what follows the last `.`, provided that dot
/// is not the name's first character (a name such as `.config`, with only a
/// leading dot, has no extension).
pub open spec fn ext_of(s: Seq<char>) -> Option<Seq<char>> {
    match rfind_dot(s) {
        None => None,
        Some(i) => if i == 0 {
            None
        } else {
            Some(s.subrange(i + 1, s.len() as int))
        },
    }
}

/// Extracts the extension of a file name, as [`ext_of`] describes it.
pub fn file_extension(name: &str) -> (r: Option<String>)
    ensures
        r is Some <==> ext_of(name@) is Some,
        r matches Some(e) ==> ext_of(name@) == Some(e@),
{
    let n: usize = name.unicode_len();
    let mut i: usize = n;
    proof {
        assert(name@.subrange(0, n as int) =~= name@);
    }
    loop
        invariant
            i <= n,
            n == name@.len(),
            rfind_dot(name@) == rfind_dot(name@.subrange(0, i as int)),
        decreases i,
    {
        if i == 0 {
            proof {
                assert(name@.subrange(0, 0).len() == 0);
            }
            return None;
        }
        let c: char = name.get_char(i - 1);
        proof {
            assert(name@.subrange(0, i as int).len() == i);
            assert(name@.subrange(0, i as int)[i - 1] == name@[i - 1]);
        }
        if c == '.' {
            if i == 1 {
                return None;
            }
            let e: &str = name.substring_char(i, n);
            return Some(e.to_owned());
        }
        proof {
            assert(name@.subrange(0, i as int).drop_last() =~= name@.subrange(0, i - 1));
        }
        i = i - 1;
    }
}

/// The hexadecimal SHA-256 digest of a byte sequence, as the outside digest
/// routine computes it; it is a function of the bytes alone.
pub uninterp spec fn sha256_hex(bytes: Seq<u8>) -> Seq<char>;

/// Relies on sha256::digest (the SHA-256 of the RustCrypto sha2 crate,
/// hex-encoded by the hex crate): the result is the 64-character lowercase
/// hexadecimal digest of the input bytes and depends on those bytes alone.
#[verifier::external_body]
pub(crate) fn digest_hex(bytes: &Vec<u8>) -> (r: String)
    ensures
        r@ == sha256_hex(bytes@),
        r@.len() == 64,
{
    sha256::digest(bytes)
}

/// The content-derived key of an upload: the hexadecimal digest of the bytes,
/// a dot, and the extension of the uploaded file's name.
pub open spec fn image_ref_of(bytes: Seq<u8>, name: Seq<char>) -> Seq<char>
    recommends
        ext_of(name) is Some,
{
    sha256_hex(bytes) + "."@ + ext_of(name)->Some_0
}

/// Builds the content-derived key of an upload; `None` when the file name has
/// no extension.
pub fn image_ref(bytes: &Vec<u8>, file_name: &str) -> (r: Option<String>)
    ensures
        r is Some <==> ext_of(file_name@) is Some,
        r matches Some(k) ==> k@ == image_ref_of(bytes@, file_name@),
{
    match file_extension(file_name) {
        None => None,
        Some(ext) => {
            let mut key: String = digest_hex(bytes);
            key.append(".");
            key.append(ext.as_str());
            proof {
                assert(key@ =~= image_ref_of(bytes@, file_name@));
            }
            Some(key)
        },
    }
}

} // verus!
