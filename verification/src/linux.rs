//! The built-in key bindings for Linux: what each keypad key runs.
use vstd::prelude::*;
use vstd::string::*;

use crate::key_actions::{ActionSpec, KeyAction};
use crate::text::str_equal;

verus! {

/// The built-in binding of a short press on Linux.
pub open spec fn press_binding(key: Seq<char>) -> ActionSpec {
    if key == "1"@ {
        ActionSpec::RunCommand("xdg-open 'https://chatgpt.com/?temporary-chat=true'"@)
    } else if key == "2"@ {
        ActionSpec::RunCommand("xdg-open \"https://www.google.com/search?q=$(wl-paste)\""@)
    } else if key == "3"@ {
        ActionSpec::RunCommand("qdbus6 org.kde.KWin /KWin org.kde.KWin.nextDesktop"@)
    } else if key == "4"@ {
        ActionSpec::RunApp("kitty"@)
    } else if key == "5"@ {
        ActionSpec::RunApp("sh -c 'tmp=$(mktemp /tmp/clipXXXX.md); wl-paste > $tmp; kitty -e nvim -c \"autocmd VimLeave * call delete(\\\"$tmp\\\")\" $tmp'"@)
    } else if key == "6"@ {
        ActionSpec::RunCommand("qdbus6 org.kde.KWin /KWin org.kde.KWin.previousDesktop"@)
    } else if key == "7"@ {
        ActionSpec::RunCommand("xdg-open \"https://www.youtube.com/\""@)
    } else if key == "8"@ {
        ActionSpec::RunCommand("xdg-open \"https://drive.google.com/drive/u/0/my-drive\""@)
    } else if key == "9"@ {
        ActionSpec::RunApp("mpv \"$(wl-paste)\""@)
    } else if key == "*"@ {
        ActionSpec::RunApp("kitty -e nvim ~/Documents/[2] Obsidian"@)
    } else if key == "0"@ {
        ActionSpec::RunApp("/home/mintori/.config/rofi/launchers/rofi-power-menu.sh"@)
    } else if key == "#"@ {
        ActionSpec::RunCommand("qdbus6 org.freedesktop.ScreenSaver /ScreenSaver Lock"@)
    } else {
        ActionSpec::Unmapped
    }
}

/// What a short press on Linux runs (see [`press_binding`]).
pub fn press_action(key: &str) -> (r: KeyAction)
    ensures
        r.view() == press_binding(key@),
{
    if str_equal(key, "1") {
        KeyAction::RunCommand(String::from_str("xdg-open 'https://chatgpt.com/?temporary-chat=true'"))
    } else if str_equal(key, "2") {
        KeyAction::RunCommand(String::from_str("xdg-open \"https://www.google.com/search?q=$(wl-paste)\""))
    } else if str_equal(key, "3") {
        KeyAction::RunCommand(String::from_str("qdbus6 org.kde.KWin /KWin org.kde.KWin.nextDesktop"))
    } else if str_equal(key, "4") {
        KeyAction::RunApp(String::from_str("kitty"))
    } else if str_equal(key, "5") {
        KeyAction::RunApp(String::from_str("sh -c 'tmp=$(mktemp /tmp/clipXXXX.md); wl-paste > $tmp; kitty -e nvim -c \"autocmd VimLeave * call delete(\\\"$tmp\\\")\" $tmp'"))
    } else if str_equal(key, "6") {
        KeyAction::RunCommand(String::from_str("qdbus6 org.kde.KWin /KWin org.kde.KWin.previousDesktop"))
    } else if str_equal(key, "7") {
        KeyAction::RunCommand(String::from_str("xdg-open \"https://www.youtube.com/\""))
    } else if str_equal(key, "8") {
        KeyAction::RunCommand(String::from_str("xdg-open \"https://drive.google.com/drive/u/0/my-drive\""))
    } else if str_equal(key, "9") {
        KeyAction::RunApp(String::from_str("mpv \"$(wl-paste)\""))
    } else if str_equal(key, "*") {
        KeyAction::RunApp(String::from_str("kitty -e nvim ~/Documents/[2] Obsidian"))
    } else if str_equal(key, "0") {
        KeyAction::RunApp(String::from_str("/home/mintori/.config/rofi/launchers/rofi-power-menu.sh"))
    } else if str_equal(key, "#") {
        KeyAction::RunCommand(String::from_str("qdbus6 org.freedesktop.ScreenSaver /ScreenSaver Lock"))
    } else {
        KeyAction::Unmapped
    }
}

/// The built-in binding of a hold on Linux.
pub open spec fn hold_binding(key: Seq<char>) -> ActionSpec {
    if key == "1"@ {
        ActionSpec::RunCommand("ydotool type \"git add . && git commit -m \'Update\' && git push\""@)
    } else if key == "2"@ {
        ActionSpec::RunCommand("xdg-open \"https://shopee.vn/search?keyword=$(wl-paste)\""@)
    } else if key == "3"@ {
        ActionSpec::RunCommand(""@)
    } else if key == "4"@ {
        ActionSpec::RunApp("kitty -e zsh -c '$(wl-paste); echo; read -n 1 -s -r -p \"Press any key to exit...\"'"@)
    } else if key == "5"@ {
        ActionSpec::RunApp(r#"kitty -e zsh -lc 'cd "$HOME/Documents/[2] Obsidian" && nvim'"#@)
    } else if key == "6"@ {
        ActionSpec::RunCommand(""@)
    } else if key == "7"@ {
        ActionSpec::RunApp("xdg-open \"https://www.youtube.com/results?search_query=$( wl-paste )\""@)
    } else if key == "8"@ {
        ActionSpec::RunApp("kitty -e zsh -c \"sh '/home/mintori/.config/rofi/launchers/install-yay.sh'\""@)
    } else if key == "9"@ {
        ActionSpec::RunCommand(""@)
    } else if key == "0"@ {
        ActionSpec::RunCommand(r#"
                . ~/.config/shell/apikey.sh &&
                curl -s -H "Authorization: Bearer $HASS_TOKEN" \
                    -H "Content-Type: application/json" \
                    -d '{"entity_id": "input_boolean.cong_tac_dieu_hoa_phong_tri"}' \
                    http://192.168.10.80:8123/api/services/input_boolean/toggle
                "#@)
    } else if key == "#"@ {
        ActionSpec::RunCommand("poweroff"@)
    } else {
        ActionSpec::Unmapped
    }
}

/// What a hold on Linux runs (see [`hold_binding`]).
pub fn hold_action(key: &str) -> (r: KeyAction)
    ensures
        r.view() == hold_binding(key@),
{
    if str_equal(key, "1") {
        KeyAction::RunCommand(String::from_str("ydotool type \"git add . && git commit -m \'Update\' && git push\""))
    } else if str_equal(key, "2") {
        KeyAction::RunCommand(String::from_str("xdg-open \"https://shopee.vn/search?keyword=$(wl-paste)\""))
    } else if str_equal(key, "3") {
        KeyAction::RunCommand(String::from_str(""))
    } else if str_equal(key, "4") {
        KeyAction::RunApp(String::from_str("kitty -e zsh -c '$(wl-paste); echo; read -n 1 -s -r -p \"Press any key to exit...\"'"))
    } else if str_equal(key, "5") {
        KeyAction::RunApp(String::from_str(r#"kitty -e zsh -lc 'cd "$HOME/Documents/[2] Obsidian" && nvim'"#))
    } else if str_equal(key, "6") {
        KeyAction::RunCommand(String::from_str(""))
    } else if str_equal(key, "7") {
        KeyAction::RunApp(String::from_str("xdg-open \"https://www.youtube.com/results?search_query=$( wl-paste )\""))
    } else if str_equal(key, "8") {
        KeyAction::RunApp(String::from_str("kitty -e zsh -c \"sh '/home/mintori/.config/rofi/launchers/install-yay.sh'\""))
    } else if str_equal(key, "9") {
        KeyAction::RunCommand(String::from_str(""))
    } else if str_equal(key, "0") {
        KeyAction::RunCommand(String::from_str(r#"
                . ~/.config/shell/apikey.sh &&
                curl -s -H "Authorization: Bearer $HASS_TOKEN" \
                    -H "Content-Type: application/json" \
                    -d '{"entity_id": "input_boolean.cong_tac_dieu_hoa_phong_tri"}' \
                    http://192.168.10.80:8123/api/services/input_boolean/toggle
                "#))
    } else if str_equal(key, "#") {
        KeyAction::RunCommand(String::from_str("poweroff"))
    } else {
        KeyAction::Unmapped
    }
}

} // verus!
