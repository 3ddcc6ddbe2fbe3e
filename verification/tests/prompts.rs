use system_snapshot::prompt::{
    folder_prompt, image_file_prompt, jar_file_prompt, java_executable_prompt, resolve_prompt,
    PromptKind, PromptSignal,
};

#[test]
fn jar_prompt_configuration() {
    let c = jar_file_prompt();
    assert_eq!(c.kind, PromptKind::SingleFile);
    assert_eq!(c.title, "Select server JAR file");
    assert_eq!(c.filters.len(), 2);
    assert_eq!(c.filters[0].label, "JAR Files");
    assert_eq!(c.filters[0].extensions, vec!["jar".to_string()]);
    assert_eq!(c.filters[1].label, "All Files");
    assert_eq!(c.filters[1].extensions, vec!["*".to_string()]);
}

#[test]
fn java_prompt_keeps_empty_extension_literally() {
    let c = java_executable_prompt();
    assert_eq!(c.kind, PromptKind::SingleFile);
    assert_eq!(c.title, "Select Java executable");
    assert_eq!(c.filters.len(), 2);
    assert_eq!(c.filters[0].label, "Executable");
    assert_eq!(c.filters[0].extensions, vec!["exe".to_string(), "".to_string()]);
    assert_eq!(c.filters[1].extensions, vec!["*".to_string()]);
}

#[test]
fn folder_prompt_has_no_filters() {
    let c = folder_prompt();
    assert_eq!(c.kind, PromptKind::Folder);
    assert_eq!(c.title, "Select modpack folder");
    assert!(c.filters.is_empty());
}

#[test]
fn image_prompt_configuration() {
    let c = image_file_prompt();
    assert_eq!(c.kind, PromptKind::SingleFile);
    assert_eq!(c.title, "Select background image");
    assert_eq!(c.filters.len(), 2);
    assert_eq!(c.filters[0].label, "Image Files");
    assert_eq!(
        c.filters[0].extensions,
        vec![
            "png".to_string(),
            "jpg".to_string(),
            "jpeg".to_string(),
            "webp".to_string(),
            "gif".to_string(),
            "bmp".to_string(),
        ]
    );
    assert_eq!(c.filters[1].label, "All Files");
}

#[test]
fn delivered_selection_resolves_to_the_path() {
    let r = resolve_prompt(PromptSignal::Delivered(Some("/tmp/server.jar".to_string())));
    assert_eq!(r, Ok(Some("/tmp/server.jar".to_string())));
}

#[test]
fn cancellation_resolves_to_empty_selection_not_failure() {
    let r = resolve_prompt(PromptSignal::Delivered(None));
    assert_eq!(r, Ok(None));
}

#[test]
fn closed_channel_resolves_to_error_without_hanging() {
    let r = resolve_prompt(PromptSignal::ChannelClosed);
    match r {
        Err(message) => {
            assert_eq!(
                message,
                "Dialog error: the completion channel closed before a selection was delivered"
            );
        }
        Ok(_) => panic!("a closed channel must resolve to an error"),
    }
}
