//! MIME types for the virtual resource protocol.
//!
//! A response's `Content-Type` is determined from the requested path's
//! extension by a static lookup table.  A path has an extension when its file
//! name has a `.` after its first character; the extension is everything after
//! the last `.`.

use vstd::prelude::*;
use vstd::string::*;

use crate::strutil::str_eq;

verus! {

/// The index of the last occurrence of `c` in `s`, or `-1` when `s` does not
/// contain `c`.
pub open spec fn last_index_of(s: Seq<char>, c: char) -> int
    decreases s.len(),
{
    if s.len() == 0 {
        -1
    } else if s[s.len() - 1] == c {
        s.len() - 1
    } else {
        last_index_of(s.drop_last(), c)
    }
}

proof fn lemma_last_index_of_bounds(s: Seq<char>, c: char)
    ensures
        -1 <= last_index_of(s, c) < s.len(),
        last_index_of(s, c) >= 0 ==> s[last_index_of(s, c)] == c,
    decreases s.len(),
{
    if s.len() > 0 && s[s.len() - 1] != c {
        lemma_last_index_of_bounds(s.drop_last(), c);
    }
}

proof fn lemma_last_index_of_step(s: Seq<char>, x: char, c: char)
    ensures
        last_index_of(s.push(x), c) == if x == c {
            s.len() as int
        } else {
            last_index_of(s, c)
        },
{
    let t = s.push(x);
    assert(t[t.len() - 1] == x);
    assert(t.drop_last() =~= s);
}

/// The extension of a path: the characters after the last `.`, provided that
/// dot comes after the first character of the file name (so a leading-dot
/// file name has no extension).
pub open spec fn spec_extension(path: Seq<char>) -> Option<Seq<char>> {
    let dot = last_index_of(path, '.');
    let slash = last_index_of(path, '/');
    if dot > slash + 1 {
        Some(path.subrange(dot + 1, path.len() as int))
    } else {
        None
    }
}

/// Extracts a path's extension.
pub fn extension_of(path: &str) -> (r: Option<String>)
    ensures
        r.is_some() == spec_extension(path@).is_some(),
        r.is_some() ==> r.unwrap()@ == spec_extension(path@).unwrap(),
{
    let n = path.unicode_len();
    let mut dot: Option<usize> = None;
    let mut slash: Option<usize> = None;
    let mut i: usize = 0;
    while i < n
        invariant
            n == path@.len(),
            i <= n,
            match dot {
                Some(k) => last_index_of(path@.subrange(0, i as int), '.') == k,
                None => last_index_of(path@.subrange(0, i as int), '.') == -1,
            },
            match slash {
                Some(k) => last_index_of(path@.subrange(0, i as int), '/') == k,
                None => last_index_of(path@.subrange(0, i as int), '/') == -1,
            },
        decreases n - i,
    {
        let c = path.get_char(i);
        proof {
            let pre = path@.subrange(0, i as int);
            assert(path@.subrange(0, i + 1) =~= pre.push(path@[i as int]));
            lemma_last_index_of_step(pre, path@[i as int], '.');
            lemma_last_index_of_step(pre, path@[i as int], '/');
        }
        if c == '.' {
            dot = Some(i);
        }
        if c == '/' {
            slash = Some(i);
        }
        i += 1;
    }
    proof {
        assert(path@.subrange(0, n as int) =~= path@);
        lemma_last_index_of_bounds(path@, '.');
        lemma_last_index_of_bounds(path@, '/');
    }
    let dot_at: usize = match dot {
        Some(k) => k,
        None => {
            return None;
        },
    };
    let after_slash: usize = match slash {
        Some(k) => k + 1,
        None => 0,
    };
    if dot_at > after_slash {
        Some(path.substring_char(dot_at + 1, n).to_owned())
    } else {
        None
    }
}

/// The MIME type registered for an extension, if any.
pub open spec fn spec_mime_of_ext(ext: Seq<char>) -> Option<Seq<char>> {
    if ext == "htm"@ || ext == "html"@ {
        Some("text/html"@)
    } else if ext == "txt"@ {
        Some("text/plain"@)
    } else if ext == "css"@ {
        Some("text/css"@)
    } else if ext == "csv"@ {
        Some("text/csv"@)
    } else if ext == "js"@ {
        Some("text/javascript"@)
    } else if ext == "jpeg"@ || ext == "jpg"@ {
        Some("image/jpeg"@)
    } else if ext == "png"@ {
        Some("image/png"@)
    } else if ext == "gif"@ {
        Some("image/gif"@)
    } else if ext == "bmp"@ {
        Some("image/bmp"@)
    } else if ext == "svg"@ {
        Some("image/svg+xml"@)
    } else if ext == "json"@ {
        Some("application/json"@)
    } else if ext == "pdf"@ {
        Some("application/pdf"@)
    } else if ext == "zip"@ {
        Some("application/zip"@)
    } else if ext == "lzh"@ {
        Some("application/x-lzh"@)
    } else if ext == "tar"@ {
        Some("application/x-tar"@)
    } else if ext == "wasm"@ {
        Some("application/wasm"@)
    } else if ext == "mp3"@ {
        Some("audio/mp3"@)
    } else if ext == "mp4"@ {
        Some("video/mp4"@)
    } else if ext == "mpeg"@ {
        Some("video/mpeg"@)
    } else if ext == "aac"@ {
        Some("audio/aac"@)
    } else if ext == "abw"@ {
        Some("application/x-abiword"@)
    } else if ext == "arc"@ {
        Some("application/x-freearc"@)
    } else if ext == "avi"@ {
        Some("video/m-msvideo"@)
    } else if ext == "azw"@ {
        Some("application/vnd.amazon.ebook"@)
    } else if ext == "bin"@ {
        Some("application/octet-stream"@)
    } else if ext == "bz"@ {
        Some("application/x-bzip"@)
    } else if ext == "bz2"@ {
        Some("application/x-bzip2"@)
    } else if ext == "csh"@ {
        Some("application/x-csh"@)
    } else if ext == "doc"@ {
        Some("application/msword"@)
    } else if ext == "docx"@ {
        Some("application/vnd.openxmlformats-officedocument.wordprocessingml.document"@)
    } else if ext == "eot"@ {
        Some("application/vnd.ms-fontobject"@)
    } else if ext == "epub"@ {
        Some("application/epub+zip"@)
    } else if ext == "gz"@ {
        Some("application/gzip"@)
    } else if ext == "ico"@ {
        Some("image/vnd.microsoft.icon"@)
    } else if ext == "ics"@ {
        Some("text/calendar"@)
    } else if ext == "jar"@ {
        Some("application/java-archive"@)
    } else if ext == "mid"@ || ext == "midi"@ {
        Some("audio/midi"@)
    } else if ext == "mpkg"@ {
        Some("application/vnd.apple.installer+xml"@)
    } else if ext == "odp"@ {
        Some("application/vnd.oasis.opendocument.presentation"@)
    } else if ext == "ods"@ {
        Some("application/vnd.oasis.opendocument.spreadsheet"@)
    } else if ext == "odt"@ {
        Some("application/vnd.oasis.opendocument.text"@)
    } else if ext == "oga"@ {
        Some("audio/ogg"@)
    } else if ext == "ogv"@ {
        Some("video/ogg"@)
    } else if ext == "ogx"@ {
        Some("application/ogg"@)
    } else if ext == "otf"@ {
        Some("font/otf"@)
    } else if ext == "ppt"@ {
        Some("application/vnd.ms-powerpoint"@)
    } else if ext == "pptx"@ {
        Some("application/vnd.openxmlformats-officedocument.presentationml.presentation"@)
    } else if ext == "rar"@ {
        Some("application/vnd.rar"@)
    } else if ext == "rtf"@ {
        Some("application/rtf"@)
    } else if ext == "sh"@ {
        Some("application/x-sh"@)
    } else if ext == "swf"@ {
        Some("application/x-shockwave-flash"@)
    } else if ext == "tif"@ || ext == "tiff"@ {
        Some("image/tiff"@)
    } else if ext == "ttf"@ {
        Some("font/ttf"@)
    } else if ext == "vsd"@ {
        Some("application/vnd.visio"@)
    } else if ext == "wav"@ {
        Some("audio/wav"@)
    } else if ext == "weba"@ {
        Some("audio/webm"@)
    } else if ext == "webm"@ {
        Some("video/web"@)
    } else if ext == "woff"@ {
        Some("font/woff"@)
    } else if ext == "woff2"@ {
        Some("font/woff2"@)
    } else if ext == "xhtml"@ {
        Some("application/xhtml+xml"@)
    } else if ext == "xls"@ {
        Some("application/vnd.ms-excel"@)
    } else if ext == "xlsx"@ {
        Some("application/vnd.openxmlformats-officedocument.spreadsheetml.sheet"@)
    } else if ext == "xml"@ {
        Some("application/xml"@)
    } else if ext == "xul"@ {
        Some("application/vnd.mozilla.xul+xml"@)
    } else if ext == "7z"@ {
        Some("application/x-7z-compressed"@)
    } else {
        None
    }
}

/// The MIME type for a path: that of its extension, `None` when the path has
/// no extension or the extension is not in the table.
pub open spec fn spec_mime_for_path(path: Seq<char>) -> Option<Seq<char>> {
    match spec_extension(path) {
        Some(ext) => spec_mime_of_ext(ext),
        None => None,
    }
}

fn hit(m: &str) -> (r: Option<String>)
    ensures
        r.is_some(),
        r.unwrap()@ == m@,
{
    Some(m.to_owned())
}

/// Looks an extension up in the MIME table.
#[verifier::rlimit(60)]
pub fn mime_of_ext(ext: &str) -> (r: Option<String>)
    ensures
        r.is_some() == spec_mime_of_ext(ext@).is_some(),
        r.is_some() ==> r.unwrap()@ == spec_mime_of_ext(ext@).unwrap(),
{
    if str_eq(ext, "htm") || str_eq(ext, "html") {
        hit("text/html")
    } else if str_eq(ext, "txt") {
        hit("text/plain")
    } else if str_eq(ext, "css") {
        hit("text/css")
    } else if str_eq(ext, "csv") {
        hit("text/csv")
    } else if str_eq(ext, "js") {
        hit("text/javascript")
    } else if str_eq(ext, "jpeg") || str_eq(ext, "jpg") {
        hit("image/jpeg")
    } else if str_eq(ext, "png") {
        hit("image/png")
    } else if str_eq(ext, "gif") {
        hit("image/gif")
    } else if str_eq(ext, "bmp") {
        hit("image/bmp")
    } else if str_eq(ext, "svg") {
        hit("image/svg+xml")
    } else if str_eq(ext, "json") {
        hit("application/json")
    } else if str_eq(ext, "pdf") {
        hit("application/pdf")
    } else if str_eq(ext, "zip") {
        hit("application/zip")
    } else if str_eq(ext, "lzh") {
        hit("application/x-lzh")
    } else if str_eq(ext, "tar") {
        hit("application/x-tar")
    } else if str_eq(ext, "wasm") {
        hit("application/wasm")
    } else if str_eq(ext, "mp3") {
        hit("audio/mp3")
    } else if str_eq(ext, "mp4") {
        hit("video/mp4")
    } else if str_eq(ext, "mpeg") {
        hit("video/mpeg")
    } else if str_eq(ext, "aac") {
        hit("audio/aac")
    } else if str_eq(ext, "abw") {
        hit("application/x-abiword")
    } else if str_eq(ext, "arc") {
        hit("application/x-freearc")
    } else if str_eq(ext, "avi") {
        hit("video/m-msvideo")
    } else if str_eq(ext, "azw") {
        hit("application/vnd.amazon.ebook")
    } else if str_eq(ext, "bin") {
        hit("application/octet-stream")
    } else if str_eq(ext, "bz") {
        hit("application/x-bzip")
    } else if str_eq(ext, "bz2") {
        hit("application/x-bzip2")
    } else if str_eq(ext, "csh") {
        hit("application/x-csh")
    } else if str_eq(ext, "doc") {
        hit("application/msword")
    } else if str_eq(ext, "docx") {
        hit("application/vnd.openxmlformats-officedocument.wordprocessingml.document")
    } else if str_eq(ext, "eot") {
        hit("application/vnd.ms-fontobject")
    } else if str_eq(ext, "epub") {
        hit("application/epub+zip")
    } else if str_eq(ext, "gz") {
        hit("application/gzip")
    } else if str_eq(ext, "ico") {
        hit("image/vnd.microsoft.icon")
    } else if str_eq(ext, "ics") {
        hit("text/calendar")
    } else if str_eq(ext, "jar") {
        hit("application/java-archive")
    } else if str_eq(ext, "mid") || str_eq(ext, "midi") {
        hit("audio/midi")
    } else if str_eq(ext, "mpkg") {
        hit("application/vnd.apple.installer+xml")
    } else if str_eq(ext, "odp") {
        hit("application/vnd.oasis.opendocument.presentation")
    } else if str_eq(ext, "ods") {
        hit("application/vnd.oasis.opendocument.spreadsheet")
    } else if str_eq(ext, "odt") {
        hit("application/vnd.oasis.opendocument.text")
    } else if str_eq(ext, "oga") {
        hit("audio/ogg")
    } else if str_eq(ext, "ogv") {
        hit("video/ogg")
    } else if str_eq(ext, "ogx") {
        hit("application/ogg")
    } else if str_eq(ext, "otf") {
        hit("font/otf")
    } else if str_eq(ext, "ppt") {
        hit("application/vnd.ms-powerpoint")
    } else if str_eq(ext, "pptx") {
        hit("application/vnd.openxmlformats-officedocument.presentationml.presentation")
    } else if str_eq(ext, "rar") {
        hit("application/vnd.rar")
    } else if str_eq(ext, "rtf") {
        hit("application/rtf")
    } else if str_eq(ext, "sh") {
        hit("application/x-sh")
    } else if str_eq(ext, "swf") {
        hit("application/x-shockwave-flash")
    } else if str_eq(ext, "tif") || str_eq(ext, "tiff") {
        hit("image/tiff")
    } else if str_eq(ext, "ttf") {
        hit("font/ttf")
    } else if str_eq(ext, "vsd") {
        hit("application/vnd.visio")
    } else if str_eq(ext, "wav") {
        hit("audio/wav")
    } else if str_eq(ext, "weba") {
        hit("audio/webm")
    } else if str_eq(ext, "webm") {
        hit("video/web")
    } else if str_eq(ext, "woff") {
        hit("font/woff")
    } else if str_eq(ext, "woff2") {
        hit("font/woff2")
    } else if str_eq(ext, "xhtml") {
        hit("application/xhtml+xml")
    } else if str_eq(ext, "xls") {
        hit("application/vnd.ms-excel")
    } else if str_eq(ext, "xlsx") {
        hit("application/vnd.openxmlformats-officedocument.spreadsheetml.sheet")
    } else if str_eq(ext, "xml") {
        hit("application/xml")
    } else if str_eq(ext, "xul") {
        hit("application/vnd.mozilla.xul+xml")
    } else if str_eq(ext, "7z") {
        hit("application/x-7z-compressed")
    } else {
        None
    }
}

/// Determines the MIME type for a path from its extension.
pub fn get_mime_type(path: &str) -> (r: Option<String>)
    ensures
        r.is_some() == spec_mime_for_path(path@).is_some(),
        r.is_some() ==> r.unwrap()@ == spec_mime_for_path(path@).unwrap(),
{
    match extension_of(path) {
        Some(ext) => mime_of_ext(ext.as_str()),
        None => None,
    }
}

} // verus!
