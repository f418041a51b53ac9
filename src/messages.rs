use vstd::prelude::*;
use vstd::string::*;
use crate::text::same_text;

verus! {

/// The message catalog: for each known key, its Chinese and English text.
pub open spec fn catalog(key: Seq<char>) -> Option<(Seq<char>, Seq<char>)> {
    if key == "file_not_found"@ {
        Some(("文件不存在"@, "File not found"@))
    } else if key == "file_not_found_error"@ {
        Some(("文件不存在"@, "File not found"@))
    } else if key == "process_success"@ {
        Some(("成功处理文件"@, "Successfully processed file"@))
    } else if key == "process_failed"@ {
        Some(("处理文件失败"@, "Failed to process file"@))
    } else if key == "execute_failed"@ {
        Some(("执行程序失败"@, "Failed to execute program"@))
    } else if key == "unknown_tool"@ {
        Some(("未知的工具名称"@, "Unknown tool name"@))
    } else if key == "unable_open_directory"@ {
        Some(("无法打开目录"@, "Unable to open directory"@))
    } else if key == "unable_create_temp_file"@ {
        Some(("无法创建临时可执行文件"@, "Unable to create temporary executable file"@))
    } else if key == "unable_write_file_data"@ {
        Some(("无法写入可执行文件数据"@, "Unable to write executable file data"@))
    } else if key == "unable_get_permissions"@ {
        Some(("无法获取文件权限"@, "Unable to get file permissions"@))
    } else if key == "unable_set_permissions"@ {
        Some(("无法设置可执行权限"@, "Unable to set executable permissions"@))
    } else if key == "task_execution_failed"@ {
        Some(("任务执行失败"@, "Task execution failed"@))
    } else if key == "unknown_tool_error"@ {
        Some(("未知的工具名称"@, "Unknown tool name"@))
    } else if key == "io_error"@ {
        Some(("IO 错误"@, "IO error"@))
    } else if key == "command_failed_error"@ {
        Some(("命令执行失败"@, "Command execution failed"@))
    } else if key == "file_processing_error"@ {
        Some(("文件处理错误"@, "File processing error"@))
    } else {
        None
    }
}

/// The text of `key` in `language`: Chinese for "zh", English for any other
/// language, and the key itself when the catalog does not know it.
pub open spec fn message_text(key: Seq<char>, language: Seq<char>) -> Seq<char> {
    match catalog(key) {
        Some((zh, en)) => if language == "zh"@ {
            zh
        } else {
            en
        },
        None => key,
    }
}

/// The message for `key`, followed by ": " and the file name when a non-empty
/// one is given.
pub open spec fn message_spec(key: Seq<char>, language: Seq<char>, filename: Option<Seq<char>>) -> Seq<char> {
    match filename {
        Some(name) => if name.len() > 0 {
            message_text(key, language) + ": "@ + name
        } else {
            message_text(key, language)
        },
        None => message_text(key, language),
    }
}

/// `head`, then ": ", then `tail`.
pub open spec fn labelled(head: Seq<char>, tail: Seq<char>) -> Seq<char> {
    head + ": "@ + tail
}

fn catalog_entry(key: &str) -> (r: Option<(&'static str, &'static str)>)
    ensures
        catalog(key@) == match r {
            Some((zh, en)) => Some((zh@, en@)),
            None => None::<(Seq<char>, Seq<char>)>,
        },
{
    if same_text(key, "file_not_found") {
        Some(("文件不存在", "File not found"))
    } else if same_text(key, "file_not_found_error") {
        Some(("文件不存在", "File not found"))
    } else if same_text(key, "process_success") {
        Some(("成功处理文件", "Successfully processed file"))
    } else if same_text(key, "process_failed") {
        Some(("处理文件失败", "Failed to process file"))
    } else if same_text(key, "execute_failed") {
        Some(("执行程序失败", "Failed to execute program"))
    } else if same_text(key, "unknown_tool") {
        Some(("未知的工具名称", "Unknown tool name"))
    } else if same_text(key, "unable_open_directory") {
        Some(("无法打开目录", "Unable to open directory"))
    } else if same_text(key, "unable_create_temp_file") {
        Some(("无法创建临时可执行文件", "Unable to create temporary executable file"))
    } else if same_text(key, "unable_write_file_data") {
        Some(("无法写入可执行文件数据", "Unable to write executable file data"))
    } else if same_text(key, "unable_get_permissions") {
        Some(("无法获取文件权限", "Unable to get file permissions"))
    } else if same_text(key, "unable_set_permissions") {
        Some(("无法设置可执行权限", "Unable to set executable permissions"))
    } else if same_text(key, "task_execution_failed") {
        Some(("任务执行失败", "Task execution failed"))
    } else if same_text(key, "unknown_tool_error") {
        Some(("未知的工具名称", "Unknown tool name"))
    } else if same_text(key, "io_error") {
        Some(("IO 错误", "IO error"))
    } else if same_text(key, "command_failed_error") {
        Some(("命令执行失败", "Command execution failed"))
    } else if same_text(key, "file_processing_error") {
        Some(("文件处理错误", "File processing error"))
    } else {
        None
    }
}

/// Looks up the text of `key` in `language`, falling back to English and then
/// to the key itself.
pub fn message_for(key: &str, language: &str) -> (r: String)
    ensures
        r@ == message_text(key@, language@),
{
    match catalog_entry(key) {
        Some((zh, en)) => {
            if same_text(language, "zh") {
                String::from_str(zh)
            } else {
                String::from_str(en)
            }
        },
        None => String::from_str(key),
    }
}

/// `head`, then ": ", then `tail`.
pub fn join_labelled(head: String, tail: &str) -> (r: String)
    ensures
        r@ == labelled(head@, tail@),
{
    let mut r = head;
    r.append(": ");
    r.append(tail);
    r
}

/// The localized message for `key`, with the file name appended when one is
/// given and is not empty.
pub fn get_message(key: &str, language: &str, filename: Option<&str>) -> (r: String)
    ensures
        r@ == message_spec(
            key@,
            language@,
            match filename {
                Some(n) => Some(n@),
                None => None,
            },
        ),
{
    let message = message_for(key, language);
    match filename {
        Some(name) => {
            if name.unicode_len() > 0 {
                join_labelled(message, name)
            } else {
                message
            }
        },
        None => message,
    }
}

/// The language of a request: the one given, or English.
pub fn language_or_default(language: Option<&str>) -> (r: &str)
    ensures
        r@ == match language {
            Some(l) => l@,
            None => "en"@,
        },
{
    match language {
        Some(l) => l,
        None => "en",
    }
}

} // verus!
