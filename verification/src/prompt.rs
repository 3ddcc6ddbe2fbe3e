//! Decision logic of the blocking selection bridge: the fixed prompt
//! configurations of the four selection entry points, and the resolution
//! of what the one-shot completion channel delivered. The callback
//! plumbing itself — registering with the OS dialog capability and
//! suspending on the channel — stays outside the library; it hands the
//! delivered signal in and performs nothing else.

use vstd::prelude::*;

verus! {

/// What a prompt asks the user to select.
#[derive(Clone, Copy, PartialEq, Eq, Structural, Debug)]
pub enum PromptKind {
    SingleFile,
    Folder,
}

/// One extension filter of a file prompt: a label and the accepted
/// extensions. An empty-string extension is a distinct, literal accepted
/// value meaning "files with no extension".
pub struct ExtensionFilter {
    pub label: String,
    pub extensions: Vec<String>,
}

/// The full configuration of one prompt invocation.
pub struct PromptConfig {
    pub kind: PromptKind,
    pub title: String,
    pub filters: Vec<ExtensionFilter>,
}

/// What the one-shot completion channel of a prompt invocation delivered:
/// either the callback fired — with a selected path, or with nothing when
/// the user cancelled — or the channel closed without ever firing.
pub enum PromptSignal {
    Delivered(Option<String>),
    ChannelClosed,
}

/// The error reported when the completion channel of a prompt closes
/// without delivering a result.
pub open spec fn channel_error_text() -> Seq<char> {
    "Dialog error: the completion channel closed before a selection was delivered"@
}

/// Resolves what the completion channel delivered into the caller-facing
/// outcome: a selected path and a cancellation are both ordinary results —
/// cancellation is the explicit empty selection, not a failure — while a
/// channel that closed without firing is the one error the bridge reports.
pub fn resolve_prompt(signal: PromptSignal) -> (r: Result<Option<String>, String>)
    ensures
        signal matches PromptSignal::Delivered(p) ==> r == Ok::<Option<String>, String>(p),
        signal matches PromptSignal::Delivered(p) && p is None ==> (r matches Ok(q) && q is None),
        signal is ChannelClosed ==> (r matches Err(m) && m@ == channel_error_text()),
{
    match signal {
        PromptSignal::Delivered(p) => Ok(p),
        PromptSignal::ChannelClosed => Err(
            "Dialog error: the completion channel closed before a selection was delivered".to_owned(),
        ),
    }
}

/// The prompt configuration for choosing a server archive: a single file,
/// with the archive filter first and an unrestricted fallback beside it.
pub fn jar_file_prompt() -> (c: PromptConfig)
    ensures
        c.kind is SingleFile,
        c.title@ == "Select server JAR file"@,
        c.filters@.len() == 2,
        c.filters@[0].label@ == "JAR Files"@,
        c.filters@[0].extensions@.len() == 1,
        c.filters@[0].extensions@[0]@ == "jar"@,
        c.filters@[1].label@ == "All Files"@,
        c.filters@[1].extensions@.len() == 1,
        c.filters@[1].extensions@[0]@ == "*"@,
{
    let mut jar_exts: Vec<String> = Vec::new();
    jar_exts.push("jar".to_owned());
    let mut all_exts: Vec<String> = Vec::new();
    all_exts.push("*".to_owned());
    let mut filters: Vec<ExtensionFilter> = Vec::new();
    filters.push(ExtensionFilter { label: "JAR Files".to_owned(), extensions: jar_exts });
    filters.push(ExtensionFilter { label: "All Files".to_owned(), extensions: all_exts });
    PromptConfig {
        kind: PromptKind::SingleFile,
        title: "Select server JAR file".to_owned(),
        filters,
    }
}

/// The prompt configuration for choosing a Java executable: a single file,
/// accepting the executable extension and — as a distinct literal value —
/// files with no extension, with an unrestricted fallback beside it.
pub fn java_executable_prompt() -> (c: PromptConfig)
    ensures
        c.kind is SingleFile,
        c.title@ == "Select Java executable"@,
        c.filters@.len() == 2,
        c.filters@[0].label@ == "Executable"@,
        c.filters@[0].extensions@.len() == 2,
        c.filters@[0].extensions@[0]@ == "exe"@,
        c.filters@[0].extensions@[1]@ == ""@,
        c.filters@[1].label@ == "All Files"@,
        c.filters@[1].extensions@.len() == 1,
        c.filters@[1].extensions@[0]@ == "*"@,
{
    let mut exe_exts: Vec<String> = Vec::new();
    exe_exts.push("exe".to_owned());
    exe_exts.push("".to_owned());
    let mut all_exts: Vec<String> = Vec::new();
    all_exts.push("*".to_owned());
    let mut filters: Vec<ExtensionFilter> = Vec::new();
    filters.push(ExtensionFilter { label: "Executable".to_owned(), extensions: exe_exts });
    filters.push(ExtensionFilter { label: "All Files".to_owned(), extensions: all_exts });
    PromptConfig {
        kind: PromptKind::SingleFile,
        title: "Select Java executable".to_owned(),
        filters,
    }
}

/// The prompt configuration for choosing a modpack folder: no extension
/// filters apply to a folder selection.
pub fn folder_prompt() -> (c: PromptConfig)
    ensures
        c.kind is Folder,
        c.title@ == "Select modpack folder"@,
        c.filters@.len() == 0,
{
    PromptConfig {
        kind: PromptKind::Folder,
        title: "Select modpack folder".to_owned(),
        filters: Vec::new(),
    }
}

/// The prompt configuration for choosing a background image: a single
/// file, with the image-type filter first and an unrestricted fallback
/// beside it.
pub fn image_file_prompt() -> (c: PromptConfig)
    ensures
        c.kind is SingleFile,
        c.title@ == "Select background image"@,
        c.filters@.len() == 2,
        c.filters@[0].label@ == "Image Files"@,
        c.filters@[0].extensions@.len() == 6,
        c.filters@[0].extensions@[0]@ == "png"@,
        c.filters@[0].extensions@[1]@ == "jpg"@,
        c.filters@[0].extensions@[2]@ == "jpeg"@,
        c.filters@[0].extensions@[3]@ == "webp"@,
        c.filters@[0].extensions@[4]@ == "gif"@,
        c.filters@[0].extensions@[5]@ == "bmp"@,
        c.filters@[1].label@ == "All Files"@,
        c.filters@[1].extensions@.len() == 1,
        c.filters@[1].extensions@[0]@ == "*"@,
{
    let mut img_exts: Vec<String> = Vec::new();
    img_exts.push("png".to_owned());
    img_exts.push("jpg".to_owned());
    img_exts.push("jpeg".to_owned());
    img_exts.push("webp".to_owned());
    img_exts.push("gif".to_owned());
    img_exts.push("bmp".to_owned());
    let mut all_exts: Vec<String> = Vec::new();
    all_exts.push("*".to_owned());
    let mut filters: Vec<ExtensionFilter> = Vec::new();
    filters.push(ExtensionFilter { label: "Image Files".to_owned(), extensions: img_exts });
    filters.push(ExtensionFilter { label: "All Files".to_owned(), extensions: all_exts });
    PromptConfig {
        kind: PromptKind::SingleFile,
        title: "Select background image".to_owned(),
        filters,
    }
}

} // verus!
