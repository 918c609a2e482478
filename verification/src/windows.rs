//! The built-in key bindings for Windows: what each keypad key runs.
use vstd::prelude::*;
use vstd::string::*;

use crate::key_actions::{ActionSpec, KeyAction};
use crate::text::str_equal;

verus! {

/// The built-in binding of a short press on Windows.
pub open spec fn press_binding(key: Seq<char>) -> ActionSpec {
    if key == "1"@ {
        ActionSpec::RunCommand("start https://chat.openai.com"@)
    } else if key == "2"@ {
        ActionSpec::RunCommand("powershell -Command \"Start-Process 'https://www.google.com/search?q=' + (Get-Clipboard)\""@)
    } else if key == "3"@ {
        ActionSpec::Print("Virtual desktop navigation not implemented on Windows."@)
    } else if key == "4"@ {
        ActionSpec::RunApp("wt.exe"@)
    } else if key == "5"@ {
        ActionSpec::RunCommand("powershell -Command \"$tmp = New-TemporaryFile; Get-Clipboard | Out-File -FilePath $tmp; wt.exe new-tab nvim $tmp\""@)
    } else if key == "6"@ {
        ActionSpec::Print("Previous desktop navigation not implemented on Windows."@)
    } else if key == "7"@ {
        ActionSpec::RunCommand("start https://www.youtube.com/"@)
    } else if key == "8"@ {
        ActionSpec::RunCommand("start https://onedrive.live.com/?view=0"@)
    } else if key == "9"@ {
        ActionSpec::RunCommand("powershell -Command \"Start-Process 'mpv' (Get-Clipboard)\""@)
    } else if key == "*"@ {
        ActionSpec::RunApp("wt.exe -d %USERPROFILE%\\Documents\\Obsidian nvim ."@)
    } else if key == "0"@ {
        ActionSpec::RunApp("powershell -Command \"Start-Process 'C:\\Users\\mintori\\.config\\rofi\\launchers\\rofi-power-menu.bat'\""@)
    } else if key == "#"@ {
        ActionSpec::RunCommand("rundll32.exe user32.dll,LockWorkStation"@)
    } else {
        ActionSpec::Unmapped
    }
}

/// What a short press on Windows runs (see [`press_binding`]).
pub fn press_action(key: &str) -> (r: KeyAction)
    ensures
        r.view() == press_binding(key@),
{
    if str_equal(key, "1") {
        KeyAction::RunCommand(String::from_str("start https://chat.openai.com"))
    } else if str_equal(key, "2") {
        KeyAction::RunCommand(String::from_str("powershell -Command \"Start-Process 'https://www.google.com/search?q=' + (Get-Clipboard)\""))
    } else if str_equal(key, "3") {
        KeyAction::Print(String::from_str("Virtual desktop navigation not implemented on Windows."))
    } else if str_equal(key, "4") {
        KeyAction::RunApp(String::from_str("wt.exe"))
    } else if str_equal(key, "5") {
        KeyAction::RunCommand(String::from_str("powershell -Command \"$tmp = New-TemporaryFile; Get-Clipboard | Out-File -FilePath $tmp; wt.exe new-tab nvim $tmp\""))
    } else if str_equal(key, "6") {
        KeyAction::Print(String::from_str("Previous desktop navigation not implemented on Windows."))
    } else if str_equal(key, "7") {
        KeyAction::RunCommand(String::from_str("start https://www.youtube.com/"))
    } else if str_equal(key, "8") {
        KeyAction::RunCommand(String::from_str("start https://onedrive.live.com/?view=0"))
    } else if str_equal(key, "9") {
        KeyAction::RunCommand(String::from_str("powershell -Command \"Start-Process 'mpv' (Get-Clipboard)\""))
    } else if str_equal(key, "*") {
        KeyAction::RunApp(String::from_str("wt.exe -d %USERPROFILE%\\Documents\\Obsidian nvim ."))
    } else if str_equal(key, "0") {
        KeyAction::RunApp(String::from_str("powershell -Command \"Start-Process 'C:\\Users\\mintori\\.config\\rofi\\launchers\\rofi-power-menu.bat'\""))
    } else if str_equal(key, "#") {
        KeyAction::RunCommand(String::from_str("rundll32.exe user32.dll,LockWorkStation"))
    } else {
        KeyAction::Unmapped
    }
}

/// The built-in binding of a hold on Windows.
pub open spec fn hold_binding(key: Seq<char>) -> ActionSpec {
    if key == "1"@ {
        ActionSpec::RunCommand("powershell -Command \"git add .; git commit -m 'Update'; git push\""@)
    } else if key == "2"@ {
        ActionSpec::RunCommand("powershell -Command \"Start-Process 'https://shopee.vn/search?keyword=' + (Get-Clipboard)\""@)
    } else if key == "4"@ {
        ActionSpec::RunApp("wt.exe new-tab powershell -NoExit -Command \"(Get-Clipboard); Read-Host 'Press Enter to exit...'\""@)
    } else if key == "5"@ {
        ActionSpec::RunApp("wt.exe -d %USERPROFILE%\\Documents\\Obsidian nvim ."@)
    } else if key == "7"@ {
        ActionSpec::RunCommand("powershell -Command \"Start-Process 'https://www.youtube.com/results?search_query=' + (Get-Clipboard)\""@)
    } else if key == "8"@ {
        ActionSpec::RunCommand("powershell -Command \"Start-Process 'C:\\Users\\mintori\\.config\\rofi\\launchers\\install-yay.ps1'\""@)
    } else if key == "#"@ {
        ActionSpec::RunCommand("shutdown /s /t 0"@)
    } else {
        ActionSpec::Unmapped
    }
}

/// What a hold on Windows runs (see [`hold_binding`]).
pub fn hold_action(key: &str) -> (r: KeyAction)
    ensures
        r.view() == hold_binding(key@),
{
    if str_equal(key, "1") {
        KeyAction::RunCommand(String::from_str("powershell -Command \"git add .; git commit -m 'Update'; git push\""))
    } else if str_equal(key, "2") {
        KeyAction::RunCommand(String::from_str("powershell -Command \"Start-Process 'https://shopee.vn/search?keyword=' + (Get-Clipboard)\""))
    } else if str_equal(key, "4") {
        KeyAction::RunApp(String::from_str("wt.exe new-tab powershell -NoExit -Command \"(Get-Clipboard); Read-Host 'Press Enter to exit...'\""))
    } else if str_equal(key, "5") {
        KeyAction::RunApp(String::from_str("wt.exe -d %USERPROFILE%\\Documents\\Obsidian nvim ."))
    } else if str_equal(key, "7") {
        KeyAction::RunCommand(String::from_str("powershell -Command \"Start-Process 'https://www.youtube.com/results?search_query=' + (Get-Clipboard)\""))
    } else if str_equal(key, "8") {
        KeyAction::RunCommand(String::from_str("powershell -Command \"Start-Process 'C:\\Users\\mintori\\.config\\rofi\\launchers\\install-yay.ps1'\""))
    } else if str_equal(key, "#") {
        KeyAction::RunCommand(String::from_str("shutdown /s /t 0"))
    } else {
        KeyAction::Unmapped
    }
}

} // verus!
