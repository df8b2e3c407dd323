use vstd::prelude::*;
use crate::model::DateKind;
use crate::outside::{path_extension, path_extension_of, lowercase, lower_of, uppercase, upper_of};
use crate::text::same_text;

verus! {

/// The label of a known (lowercase) extension, or `None` for one the table
/// does not hold.
pub open spec fn known_kind(ext: Seq<char>) -> Option<Seq<char>> {
    if ext == "pdf"@ {
        Some("PDF Document"@)
    } else if ext == "doc"@ || ext == "docx"@ {
        Some("Word Document"@)
    } else if ext == "xls"@ || ext == "xlsx"@ {
        Some("Excel Spreadsheet"@)
    } else if ext == "ppt"@ || ext == "pptx"@ {
        Some("Presentation"@)
    } else if ext == "txt"@ {
        Some("Plain Text"@)
    } else if ext == "md"@ {
        Some("Markdown"@)
    } else if ext == "html"@ || ext == "htm"@ {
        Some("HTML Document"@)
    } else if ext == "css"@ {
        Some("CSS Stylesheet"@)
    } else if ext == "js"@ {
        Some("JavaScript"@)
    } else if ext == "ts"@ {
        Some("TypeScript"@)
    } else if ext == "json"@ {
        Some("JSON"@)
    } else if ext == "py"@ {
        Some("Python Script"@)
    } else if ext == "rs"@ {
        Some("Rust Source"@)
    } else if ext == "swift"@ {
        Some("Swift Source"@)
    } else if ext == "java"@ {
        Some("Java Source"@)
    } else if ext == "go"@ {
        Some("Go Source"@)
    } else if ext == "c"@ || ext == "h"@ {
        Some("C Source"@)
    } else if ext == "cpp"@ || ext == "hpp"@ {
        Some("C++ Source"@)
    } else if ext == "jpg"@ || ext == "jpeg"@ {
        Some("JPEG Image"@)
    } else if ext == "png"@ {
        Some("PNG Image"@)
    } else if ext == "gif"@ {
        Some("GIF Image"@)
    } else if ext == "heic"@ {
        Some("HEIC Image"@)
    } else if ext == "svg"@ {
        Some("SVG Image"@)
    } else if ext == "mp4"@ {
        Some("MP4 Video"@)
    } else if ext == "mov"@ {
        Some("QuickTime Movie"@)
    } else if ext == "mp3"@ {
        Some("MP3 Audio"@)
    } else if ext == "wav"@ {
        Some("WAV Audio"@)
    } else if ext == "zip"@ {
        Some("ZIP Archive"@)
    } else if ext == "dmg"@ {
        Some("Disk Image"@)
    } else if ext == "app"@ {
        Some("Application"@)
    } else {
        None
    }
}

/// The kind label of an entry: `Folder` for a folder; for a file, the label
/// of its lowercase extension, `<EXT> File` for an extension the table does
/// not hold, and `Document` where there is no extension.
pub open spec fn file_kind_of(path: Seq<char>, is_folder: bool) -> Seq<char> {
    if is_folder {
        "Folder"@
    } else {
        match path_extension_of(path) {
            None => "Document"@,
            Some(e) => match known_kind(lower_of(e)) {
                Some(k) => k,
                None => upper_of(e) + " File"@,
            },
        }
    }
}

/// The label of a known (lowercase) extension.
fn known_kind_label(ext: &str) -> (r: Option<String>)
    ensures
        r is Some <==> known_kind(ext@) is Some,
        r is Some ==> known_kind(ext@) == Some(r->0@),
{
    if same_text(ext, "pdf") {
        Some(String::from_str("PDF Document"))
    } else if same_text(ext, "doc") || same_text(ext, "docx") {
        Some(String::from_str("Word Document"))
    } else if same_text(ext, "xls") || same_text(ext, "xlsx") {
        Some(String::from_str("Excel Spreadsheet"))
    } else if same_text(ext, "ppt") || same_text(ext, "pptx") {
        Some(String::from_str("Presentation"))
    } else if same_text(ext, "txt") {
        Some(String::from_str("Plain Text"))
    } else if same_text(ext, "md") {
        Some(String::from_str("Markdown"))
    } else if same_text(ext, "html") || same_text(ext, "htm") {
        Some(String::from_str("HTML Document"))
    } else if same_text(ext, "css") {
        Some(String::from_str("CSS Stylesheet"))
    } else if same_text(ext, "js") {
        Some(String::from_str("JavaScript"))
    } else if same_text(ext, "ts") {
        Some(String::from_str("TypeScript"))
    } else if same_text(ext, "json") {
        Some(String::from_str("JSON"))
    } else if same_text(ext, "py") {
        Some(String::from_str("Python Script"))
    } else if same_text(ext, "rs") {
        Some(String::from_str("Rust Source"))
    } else if same_text(ext, "swift") {
        Some(String::from_str("Swift Source"))
    } else if same_text(ext, "java") {
        Some(String::from_str("Java Source"))
    } else if same_text(ext, "go") {
        Some(String::from_str("Go Source"))
    } else if same_text(ext, "c") || same_text(ext, "h") {
        Some(String::from_str("C Source"))
    } else if same_text(ext, "cpp") || same_text(ext, "hpp") {
        Some(String::from_str("C++ Source"))
    } else if same_text(ext, "jpg") || same_text(ext, "jpeg") {
        Some(String::from_str("JPEG Image"))
    } else if same_text(ext, "png") {
        Some(String::from_str("PNG Image"))
    } else if same_text(ext, "gif") {
        Some(String::from_str("GIF Image"))
    } else if same_text(ext, "heic") {
        Some(String::from_str("HEIC Image"))
    } else if same_text(ext, "svg") {
        Some(String::from_str("SVG Image"))
    } else if same_text(ext, "mp4") {
        Some(String::from_str("MP4 Video"))
    } else if same_text(ext, "mov") {
        Some(String::from_str("QuickTime Movie"))
    } else if same_text(ext, "mp3") {
        Some(String::from_str("MP3 Audio"))
    } else if same_text(ext, "wav") {
        Some(String::from_str("WAV Audio"))
    } else if same_text(ext, "zip") {
        Some(String::from_str("ZIP Archive"))
    } else if same_text(ext, "dmg") {
        Some(String::from_str("Disk Image"))
    } else if same_text(ext, "app") {
        Some(String::from_str("Application"))
    } else {
        None
    }
}

/// Classifies an entry by its path into a human-readable kind.
pub fn get_file_kind(path: &str, is_folder: bool) -> (r: String)
    ensures
        r@ == file_kind_of(path@, is_folder),
{
    if is_folder {
        return String::from_str("Folder");
    }
    match path_extension(path) {
        None => String::from_str("Document"),
        Some(e) => {
            let lower = lowercase(e.as_str());
            match known_kind_label(lower.as_str()) {
                Some(k) => k,
                None => {
                    let mut r = uppercase(e.as_str());
                    r.append(" File");
                    r
                },
            }
        },
    }
}

/// The extensions (lowercase) that the index takes in.
pub open spec fn is_indexed_extension(ext: Seq<char>) -> bool {
    ext == "pdf"@ || ext == "doc"@ || ext == "docx"@ || ext == "txt"@
        || ext == "rtf"@ || ext == "md"@ || ext == "pages"@ || ext == "odt"@
        || ext == "xls"@ || ext == "xlsx"@ || ext == "csv"@ || ext == "numbers"@
        || ext == "ppt"@ || ext == "pptx"@ || ext == "key"@ || ext == "jpg"@
        || ext == "jpeg"@ || ext == "png"@ || ext == "gif"@ || ext == "heic"@
        || ext == "webp"@ || ext == "svg"@ || ext == "psd"@ || ext == "ai"@
        || ext == "mp4"@ || ext == "mov"@ || ext == "avi"@ || ext == "mkv"@
        || ext == "webm"@ || ext == "mp3"@ || ext == "wav"@ || ext == "aac"@
        || ext == "flac"@ || ext == "m4a"@ || ext == "py"@ || ext == "js"@
        || ext == "ts"@ || ext == "rs"@ || ext == "swift"@ || ext == "java"@
        || ext == "go"@ || ext == "html"@ || ext == "css"@ || ext == "json"@
        || ext == "zip"@ || ext == "tar"@ || ext == "gz"@ || ext == "rar"@
        || ext == "7z"@ || ext == "dmg"@
}

/// Tells whether a lowercase extension is one that the index takes in.
pub fn indexed_extension(ext: &str) -> (r: bool)
    ensures
        r == is_indexed_extension(ext@),
{
    same_text(ext, "pdf") || same_text(ext, "doc") || same_text(ext, "docx")
        || same_text(ext, "txt") || same_text(ext, "rtf") || same_text(ext, "md")
        || same_text(ext, "pages") || same_text(ext, "odt") || same_text(ext, "xls")
        || same_text(ext, "xlsx") || same_text(ext, "csv") || same_text(ext, "numbers")
        || same_text(ext, "ppt") || same_text(ext, "pptx") || same_text(ext, "key")
        || same_text(ext, "jpg") || same_text(ext, "jpeg") || same_text(ext, "png")
        || same_text(ext, "gif") || same_text(ext, "heic") || same_text(ext, "webp")
        || same_text(ext, "svg") || same_text(ext, "psd") || same_text(ext, "ai")
        || same_text(ext, "mp4") || same_text(ext, "mov") || same_text(ext, "avi")
        || same_text(ext, "mkv") || same_text(ext, "webm") || same_text(ext, "mp3")
        || same_text(ext, "wav") || same_text(ext, "aac") || same_text(ext, "flac")
        || same_text(ext, "m4a") || same_text(ext, "py") || same_text(ext, "js")
        || same_text(ext, "ts") || same_text(ext, "rs") || same_text(ext, "swift")
        || same_text(ext, "java") || same_text(ext, "go") || same_text(ext, "html")
        || same_text(ext, "css") || same_text(ext, "json") || same_text(ext, "zip")
        || same_text(ext, "tar") || same_text(ext, "gz") || same_text(ext, "rar")
        || same_text(ext, "7z") || same_text(ext, "dmg")
}

/// The best date of an entry: the later of its modification and creation
/// times, tagged with the one it came from; a tie counts as modification.
pub open spec fn best_date(modified: i64, created: i64) -> (i64, DateKind) {
    if created > modified {
        (created, DateKind::Created)
    } else {
        (modified, DateKind::Modified)
    }
}

/// Picks the later of an entry's modification and creation times. Access
/// time never counts: unrelated background activity changes it.
pub fn get_best_date(modified: i64, created: i64) -> (r: (i64, DateKind))
    ensures
        r == best_date(modified, created),
        r.0 == if created > modified { created } else { modified },
        r.1 == DateKind::Created <==> created > modified,
{
    if created > modified {
        (created, DateKind::Created)
    } else {
        (modified, DateKind::Modified)
    }
}

/// The label that a result carries for each kind of date.
pub open spec fn date_kind_label(k: DateKind) -> Seq<char> {
    match k {
        DateKind::Modified => "Modified"@,
        DateKind::Created => "Created"@,
        DateKind::Unknown => "Unknown"@,
    }
}

impl DateKind {
    /// The label of this kind of date.
    pub fn label(&self) -> (r: String)
        ensures
            r@ == date_kind_label(*self),
    {
        match self {
            DateKind::Modified => String::from_str("Modified"),
            DateKind::Created => String::from_str("Created"),
            DateKind::Unknown => String::from_str("Unknown"),
        }
    }
}

} // verus!
