//! The registry of content types: a fixed table from file extension, in
//! lower case and without the dot, to the content type served for it.
//! Lookups are exact; an extension that is not in the table, or in another
//! case, gets the default type.
//!
//! The table is written as a function. It needs no initialisation, no lock
//! and no allocation, and each of its entries can be read off its text.

use crate::text::same_text;
use vstd::prelude::*;

verus! {

/// The content type of an extension that the table does not hold.
pub open spec fn default_type() -> Seq<char> {
    "application/octet-stream"@
}

/// The table: the content type registered for an extension, if any.
pub open spec fn registered_type(extension: Seq<char>) -> Option<Seq<char>> {
    if extension == "aac"@ {
        Some("audio/aac"@)
    } else if extension == "abw"@ {
        Some("application/x-abiword"@)
    } else if extension == "apng"@ {
        Some("image/apng"@)
    } else if extension == "arc"@ {
        Some("application/x-freearc"@)
    } else if extension == "avif"@ {
        Some("image/avif"@)
    } else if extension == "avi"@ {
        Some("video/x-msvideo"@)
    } else if extension == "azw"@ {
        Some("application/vnd.amazon.ebook"@)
    } else if extension == "bin"@ {
        Some("application/octet-stream"@)
    } else if extension == "bmp"@ {
        Some("image/bmp"@)
    } else if extension == "bz"@ {
        Some("application/x-bzip"@)
    } else if extension == "bz2"@ {
        Some("application/x-bzip2"@)
    } else if extension == "cda"@ {
        Some("application/x-cdf"@)
    } else if extension == "cjs"@ {
        Some("text/javascript"@)
    } else if extension == "csh"@ {
        Some("application/x-csh"@)
    } else if extension == "css"@ {
        Some("text/css"@)
    } else if extension == "csv"@ {
        Some("text/csv"@)
    } else if extension == "doc"@ {
        Some("application/msword"@)
    } else if extension == "docx"@ {
        Some("application/vnd.openxmlformats-officedocument.wordprocessingml.document"@)
    } else if extension == "eot"@ {
        Some("application/vnd.ms-fontobject"@)
    } else if extension == "epub"@ {
        Some("application/epub+zip"@)
    } else if extension == "gz"@ {
        Some("application/gzip"@)
    } else if extension == "gif"@ {
        Some("image/gif"@)
    } else if extension == "html"@ {
        Some("text/html"@)
    } else if extension == "htm"@ {
        Some("text/html"@)
    } else if extension == "ico"@ {
        Some("image/vnd.microsoft.icon"@)
    } else if extension == "ics"@ {
        Some("text/calendar"@)
    } else if extension == "jar"@ {
        Some("application/java-archive"@)
    } else if extension == "jpeg"@ {
        Some("image/jpeg"@)
    } else if extension == "jpg"@ {
        Some("image/jpeg"@)
    } else if extension == "js"@ {
        Some("text/javascript"@)
    } else if extension == "json"@ {
        Some("application/json"@)
    } else if extension == "jsonld"@ {
        Some("application/ld+json"@)
    } else if extension == "midi"@ {
        Some("audio/midi"@)
    } else if extension == "mid"@ {
        Some("audio/midi"@)
    } else if extension == "mjs"@ {
        Some("text/javascript"@)
    } else if extension == "mp3"@ {
        Some("audio/mpeg"@)
    } else if extension == "mp4"@ {
        Some("video/mp4"@)
    } else if extension == "mpeg"@ {
        Some("video/mpeg"@)
    } else if extension == "mpkg"@ {
        Some("application/vnd.apple.installer+xml"@)
    } else if extension == "odp"@ {
        Some("application/vnd.oasis.opendocument.presentation"@)
    } else if extension == "ods"@ {
        Some("application/vnd.oasis.opendocument.spreadsheet"@)
    } else if extension == "odt"@ {
        Some("application/vnd.oasis.opendocument.text"@)
    } else if extension == "oga"@ {
        Some("audio/ogg"@)
    } else if extension == "ogv"@ {
        Some("video/ogg"@)
    } else if extension == "ogx"@ {
        Some("application/ogg"@)
    } else if extension == "opus"@ {
        Some("audio/ogg"@)
    } else if extension == "otf"@ {
        Some("font/otf"@)
    } else if extension == "png"@ {
        Some("image/png"@)
    } else if extension == "pdf"@ {
        Some("application/pdf"@)
    } else if extension == "php"@ {
        Some("application/x-httpd-php"@)
    } else if extension == "ppt"@ {
        Some("application/vnd.ms-powerpoint"@)
    } else if extension == "pptx"@ {
        Some("application/vnd.openxmlformats-officedocument.presentationml.presentation"@)
    } else if extension == "rar"@ {
        Some("application/vnd.rar"@)
    } else if extension == "rtf"@ {
        Some("application/rtf"@)
    } else if extension == "sh"@ {
        Some("application/x-sh"@)
    } else if extension == "svg"@ {
        Some("image/svg+xml"@)
    } else if extension == "tar"@ {
        Some("application/x-tar"@)
    } else if extension == "tif"@ {
        Some("image/tiff"@)
    } else if extension == "tiff"@ {
        Some("image/tiff"@)
    } else if extension == "ts"@ {
        Some("video/mp2t"@)
    } else if extension == "ttf"@ {
        Some("font/ttf"@)
    } else if extension == "txt"@ {
        Some("text/plain"@)
    } else if extension == "vsd"@ {
        Some("application/vnd.visio"@)
    } else if extension == "wav"@ {
        Some("audio/wav"@)
    } else if extension == "weba"@ {
        Some("audio/webm"@)
    } else if extension == "webm"@ {
        Some("video/webm"@)
    } else if extension == "webp"@ {
        Some("image/webp"@)
    } else if extension == "woff"@ {
        Some("font/woff"@)
    } else if extension == "woff2"@ {
        Some("font/woff2"@)
    } else if extension == "xhtml"@ {
        Some("application/xhtml+xml"@)
    } else if extension == "xls"@ {
        Some("application/vnd.ms-excel"@)
    } else if extension == "xlsx"@ {
        Some("application/vnd.openxmlformats-officedocument.spreadsheetml.sheet"@)
    } else if extension == "xml"@ {
        Some("application/xml"@)
    } else if extension == "xul"@ {
        Some("application/vnd.mozilla.xul+xml"@)
    } else if extension == "zip"@ {
        Some("application/zip"@)
    } else if extension == "3gp"@ {
        Some("video/3gpp"@)
    } else if extension == "3g2"@ {
        Some("video/3gpp2"@)
    } else if extension == "7z"@ {
        Some("application/x-7z-compressed"@)
    } else {
        None
    }
}

/// The content type served for an extension.
pub open spec fn content_type_of(extension: Seq<char>) -> Seq<char> {
    match registered_type(extension) {
        Some(content_type) => content_type,
        None => default_type(),
    }
}

/// Looks an extension up in the table.
pub fn content_type(extension: &str) -> (content_type: &'static str)
    ensures
        content_type@ == content_type_of(extension@),
        registered_type(extension@) is None ==> content_type@ == default_type(),
{
    if same_text(extension, "aac") {
        "audio/aac"
    } else if same_text(extension, "abw") {
        "application/x-abiword"
    } else if same_text(extension, "apng") {
        "image/apng"
    } else if same_text(extension, "arc") {
        "application/x-freearc"
    } else if same_text(extension, "avif") {
        "image/avif"
    } else if same_text(extension, "avi") {
        "video/x-msvideo"
    } else if same_text(extension, "azw") {
        "application/vnd.amazon.ebook"
    } else if same_text(extension, "bin") {
        "application/octet-stream"
    } else if same_text(extension, "bmp") {
        "image/bmp"
    } else if same_text(extension, "bz") {
        "application/x-bzip"
    } else if same_text(extension, "bz2") {
        "application/x-bzip2"
    } else if same_text(extension, "cda") {
        "application/x-cdf"
    } else if same_text(extension, "cjs") {
        "text/javascript"
    } else if same_text(extension, "csh") {
        "application/x-csh"
    } else if same_text(extension, "css") {
        "text/css"
    } else if same_text(extension, "csv") {
        "text/csv"
    } else if same_text(extension, "doc") {
        "application/msword"
    } else if same_text(extension, "docx") {
        "application/vnd.openxmlformats-officedocument.wordprocessingml.document"
    } else if same_text(extension, "eot") {
        "application/vnd.ms-fontobject"
    } else if same_text(extension, "epub") {
        "application/epub+zip"
    } else if same_text(extension, "gz") {
        "application/gzip"
    } else if same_text(extension, "gif") {
        "image/gif"
    } else if same_text(extension, "html") {
        "text/html"
    } else if same_text(extension, "htm") {
        "text/html"
    } else if same_text(extension, "ico") {
        "image/vnd.microsoft.icon"
    } else if same_text(extension, "ics") {
        "text/calendar"
    } else if same_text(extension, "jar") {
        "application/java-archive"
    } else if same_text(extension, "jpeg") {
        "image/jpeg"
    } else if same_text(extension, "jpg") {
        "image/jpeg"
    } else if same_text(extension, "js") {
        "text/javascript"
    } else if same_text(extension, "json") {
        "application/json"
    } else if same_text(extension, "jsonld") {
        "application/ld+json"
    } else if same_text(extension, "midi") {
        "audio/midi"
    } else if same_text(extension, "mid") {
        "audio/midi"
    } else if same_text(extension, "mjs") {
        "text/javascript"
    } else if same_text(extension, "mp3") {
        "audio/mpeg"
    } else if same_text(extension, "mp4") {
        "video/mp4"
    } else if same_text(extension, "mpeg") {
        "video/mpeg"
    } else if same_text(extension, "mpkg") {
        "application/vnd.apple.installer+xml"
    } else if same_text(extension, "odp") {
        "application/vnd.oasis.opendocument.presentation"
    } else if same_text(extension, "ods") {
        "application/vnd.oasis.opendocument.spreadsheet"
    } else if same_text(extension, "odt") {
        "application/vnd.oasis.opendocument.text"
    } else if same_text(extension, "oga") {
        "audio/ogg"
    } else if same_text(extension, "ogv") {
        "video/ogg"
    } else if same_text(extension, "ogx") {
        "application/ogg"
    } else if same_text(extension, "opus") {
        "audio/ogg"
    } else if same_text(extension, "otf") {
        "font/otf"
    } else if same_text(extension, "png") {
        "image/png"
    } else if same_text(extension, "pdf") {
        "application/pdf"
    } else if same_text(extension, "php") {
        "application/x-httpd-php"
    } else if same_text(extension, "ppt") {
        "application/vnd.ms-powerpoint"
    } else if same_text(extension, "pptx") {
        "application/vnd.openxmlformats-officedocument.presentationml.presentation"
    } else if same_text(extension, "rar") {
        "application/vnd.rar"
    } else if same_text(extension, "rtf") {
        "application/rtf"
    } else if same_text(extension, "sh") {
        "application/x-sh"
    } else if same_text(extension, "svg") {
        "image/svg+xml"
    } else if same_text(extension, "tar") {
        "application/x-tar"
    } else if same_text(extension, "tif") {
        "image/tiff"
    } else if same_text(extension, "tiff") {
        "image/tiff"
    } else if same_text(extension, "ts") {
        "video/mp2t"
    } else if same_text(extension, "ttf") {
        "font/ttf"
    } else if same_text(extension, "txt") {
        "text/plain"
    } else if same_text(extension, "vsd") {
        "application/vnd.visio"
    } else if same_text(extension, "wav") {
        "audio/wav"
    } else if same_text(extension, "weba") {
        "audio/webm"
    } else if same_text(extension, "webm") {
        "video/webm"
    } else if same_text(extension, "webp") {
        "image/webp"
    } else if same_text(extension, "woff") {
        "font/woff"
    } else if same_text(extension, "woff2") {
        "font/woff2"
    } else if same_text(extension, "xhtml") {
        "application/xhtml+xml"
    } else if same_text(extension, "xls") {
        "application/vnd.ms-excel"
    } else if same_text(extension, "xlsx") {
        "application/vnd.openxmlformats-officedocument.spreadsheetml.sheet"
    } else if same_text(extension, "xml") {
        "application/xml"
    } else if same_text(extension, "xul") {
        "application/vnd.mozilla.xul+xml"
    } else if same_text(extension, "zip") {
        "application/zip"
    } else if same_text(extension, "3gp") {
        "video/3gpp"
    } else if same_text(extension, "3g2") {
        "video/3gpp2"
    } else if same_text(extension, "7z") {
        "application/x-7z-compressed"
    } else {
        "application/octet-stream"
    }
}

} // verus!
