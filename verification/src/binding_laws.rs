//! The built-in key bindings, stated as the tables that they are: for each
//! platform and kind of event, which keypad key runs which command.
use vstd::prelude::*;

use crate::key_actions::ActionSpec;
use crate::{linux, windows};

verus! {

/// The Linux table for a short press: each listed key runs exactly the listed command,
/// and any other key has no binding.
pub proof fn law_linux_press_table(key: Seq<char>)
    ensures
        key == "1"@ ==> linux::press_binding(key) == ActionSpec::RunCommand("xdg-open 'https://chatgpt.com/?temporary-chat=true'"@),
        key == "2"@ ==> linux::press_binding(key) == ActionSpec::RunCommand("xdg-open \"https://www.google.com/search?q=$(wl-paste)\""@),
        key == "3"@ ==> linux::press_binding(key) == ActionSpec::RunCommand("qdbus6 org.kde.KWin /KWin org.kde.KWin.nextDesktop"@),
        key == "4"@ ==> linux::press_binding(key) == ActionSpec::RunApp("kitty"@),
        key == "5"@ ==> linux::press_binding(key) == ActionSpec::RunApp("sh -c 'tmp=$(mktemp /tmp/clipXXXX.md); wl-paste > $tmp; kitty -e nvim -c \"autocmd VimLeave * call delete(\\\"$tmp\\\")\" $tmp'"@),
        key == "6"@ ==> linux::press_binding(key) == ActionSpec::RunCommand("qdbus6 org.kde.KWin /KWin org.kde.KWin.previousDesktop"@),
        key == "7"@ ==> linux::press_binding(key) == ActionSpec::RunCommand("xdg-open \"https://www.youtube.com/\""@),
        key == "8"@ ==> linux::press_binding(key) == ActionSpec::RunCommand("xdg-open \"https://drive.google.com/drive/u/0/my-drive\""@),
        key == "9"@ ==> linux::press_binding(key) == ActionSpec::RunApp("mpv \"$(wl-paste)\""@),
        key == "*"@ ==> linux::press_binding(key) == ActionSpec::RunApp("kitty -e nvim ~/Documents/[2] Obsidian"@),
        key == "0"@ ==> linux::press_binding(key) == ActionSpec::RunApp("/home/mintori/.config/rofi/launchers/rofi-power-menu.sh"@),
        key == "#"@ ==> linux::press_binding(key) == ActionSpec::RunCommand("qdbus6 org.freedesktop.ScreenSaver /ScreenSaver Lock"@),
        key != "1"@ && key != "2"@ && key != "3"@ && key != "4"@ && key != "5"@ && key != "6"@ && key != "7"@ && key != "8"@ && key != "9"@ && key != "*"@ && key != "0"@ && key != "#"@ ==> linux::press_binding(key) == ActionSpec::Unmapped,
{
    reveal_strlit("1");
    reveal_strlit("2");
    reveal_strlit("3");
    reveal_strlit("4");
    reveal_strlit("5");
    reveal_strlit("6");
    reveal_strlit("7");
    reveal_strlit("8");
    reveal_strlit("9");
    reveal_strlit("*");
    reveal_strlit("0");
    reveal_strlit("#");
    assert("1"@ != "2"@) by {
        assert("1"@[0] != "2"@[0]);
    }
    assert("1"@ != "3"@) by {
        assert("1"@[0] != "3"@[0]);
    }
    assert("1"@ != "4"@) by {
        assert("1"@[0] != "4"@[0]);
    }
    assert("1"@ != "5"@) by {
        assert("1"@[0] != "5"@[0]);
    }
    assert("1"@ != "6"@) by {
        assert("1"@[0] != "6"@[0]);
    }
    assert("1"@ != "7"@) by {
        assert("1"@[0] != "7"@[0]);
    }
    assert("1"@ != "8"@) by {
        assert("1"@[0] != "8"@[0]);
    }
    assert("1"@ != "9"@) by {
        assert("1"@[0] != "9"@[0]);
    }
    assert("1"@ != "*"@) by {
        assert("1"@[0] != "*"@[0]);
    }
    assert("1"@ != "0"@) by {
        assert("1"@[0] != "0"@[0]);
    }
    assert("1"@ != "#"@) by {
        assert("1"@[0] != "#"@[0]);
    }
    assert("2"@ != "3"@) by {
        assert("2"@[0] != "3"@[0]);
    }
    assert("2"@ != "4"@) by {
        assert("2"@[0] != "4"@[0]);
    }
    assert("2"@ != "5"@) by {
        assert("2"@[0] != "5"@[0]);
    }
    assert("2"@ != "6"@) by {
        assert("2"@[0] != "6"@[0]);
    }
    assert("2"@ != "7"@) by {
        assert("2"@[0] != "7"@[0]);
    }
    assert("2"@ != "8"@) by {
        assert("2"@[0] != "8"@[0]);
    }
    assert("2"@ != "9"@) by {
        assert("2"@[0] != "9"@[0]);
    }
    assert("2"@ != "*"@) by {
        assert("2"@[0] != "*"@[0]);
    }
    assert("2"@ != "0"@) by {
        assert("2"@[0] != "0"@[0]);
    }
    assert("2"@ != "#"@) by {
        assert("2"@[0] != "#"@[0]);
    }
    assert("3"@ != "4"@) by {
        assert("3"@[0] != "4"@[0]);
    }
    assert("3"@ != "5"@) by {
        assert("3"@[0] != "5"@[0]);
    }
    assert("3"@ != "6"@) by {
        assert("3"@[0] != "6"@[0]);
    }
    assert("3"@ != "7"@) by {
        assert("3"@[0] != "7"@[0]);
    }
    assert("3"@ != "8"@) by {
        assert("3"@[0] != "8"@[0]);
    }
    assert("3"@ != "9"@) by {
        assert("3"@[0] != "9"@[0]);
    }
    assert("3"@ != "*"@) by {
        assert("3"@[0] != "*"@[0]);
    }
    assert("3"@ != "0"@) by {
        assert("3"@[0] != "0"@[0]);
    }
    assert("3"@ != "#"@) by {
        assert("3"@[0] != "#"@[0]);
    }
    assert("4"@ != "5"@) by {
        assert("4"@[0] != "5"@[0]);
    }
    assert("4"@ != "6"@) by {
        assert("4"@[0] != "6"@[0]);
    }
    assert("4"@ != "7"@) by {
        assert("4"@[0] != "7"@[0]);
    }
    assert("4"@ != "8"@) by {
        assert("4"@[0] != "8"@[0]);
    }
    assert("4"@ != "9"@) by {
        assert("4"@[0] != "9"@[0]);
    }
    assert("4"@ != "*"@) by {
        assert("4"@[0] != "*"@[0]);
    }
    assert("4"@ != "0"@) by {
        assert("4"@[0] != "0"@[0]);
    }
    assert("4"@ != "#"@) by {
        assert("4"@[0] != "#"@[0]);
    }
    assert("5"@ != "6"@) by {
        assert("5"@[0] != "6"@[0]);
    }
    assert("5"@ != "7"@) by {
        assert("5"@[0] != "7"@[0]);
    }
    assert("5"@ != "8"@) by {
        assert("5"@[0] != "8"@[0]);
    }
    assert("5"@ != "9"@) by {
        assert("5"@[0] != "9"@[0]);
    }
    assert("5"@ != "*"@) by {
        assert("5"@[0] != "*"@[0]);
    }
    assert("5"@ != "0"@) by {
        assert("5"@[0] != "0"@[0]);
    }
    assert("5"@ != "#"@) by {
        assert("5"@[0] != "#"@[0]);
    }
    assert("6"@ != "7"@) by {
        assert("6"@[0] != "7"@[0]);
    }
    assert("6"@ != "8"@) by {
        assert("6"@[0] != "8"@[0]);
    }
    assert("6"@ != "9"@) by {
        assert("6"@[0] != "9"@[0]);
    }
    assert("6"@ != "*"@) by {
        assert("6"@[0] != "*"@[0]);
    }
    assert("6"@ != "0"@) by {
        assert("6"@[0] != "0"@[0]);
    }
    assert("6"@ != "#"@) by {
        assert("6"@[0] != "#"@[0]);
    }
    assert("7"@ != "8"@) by {
        assert("7"@[0] != "8"@[0]);
    }
    assert("7"@ != "9"@) by {
        assert("7"@[0] != "9"@[0]);
    }
    assert("7"@ != "*"@) by {
        assert("7"@[0] != "*"@[0]);
    }
    assert("7"@ != "0"@) by {
        assert("7"@[0] != "0"@[0]);
    }
    assert("7"@ != "#"@) by {
        assert("7"@[0] != "#"@[0]);
    }
    assert("8"@ != "9"@) by {
        assert("8"@[0] != "9"@[0]);
    }
    assert("8"@ != "*"@) by {
        assert("8"@[0] != "*"@[0]);
    }
    assert("8"@ != "0"@) by {
        assert("8"@[0] != "0"@[0]);
    }
    assert("8"@ != "#"@) by {
        assert("8"@[0] != "#"@[0]);
    }
    assert("9"@ != "*"@) by {
        assert("9"@[0] != "*"@[0]);
    }
    assert("9"@ != "0"@) by {
        assert("9"@[0] != "0"@[0]);
    }
    assert("9"@ != "#"@) by {
        assert("9"@[0] != "#"@[0]);
    }
    assert("*"@ != "0"@) by {
        assert("*"@[0] != "0"@[0]);
    }
    assert("*"@ != "#"@) by {
        assert("*"@[0] != "#"@[0]);
    }
    assert("0"@ != "#"@) by {
        assert("0"@[0] != "#"@[0]);
    }
}

/// In the Linux table for a short press, no two keys run the same thing.
pub proof fn law_linux_press_distinct(a: Seq<char>, b: Seq<char>)
    requires
        a != b,
        !(linux::press_binding(a) is Unmapped),
        !(linux::press_binding(b) is Unmapped),
    ensures
        linux::press_binding(a) != linux::press_binding(b),
{
    law_linux_press_table(a);
    law_linux_press_table(b);
    reveal_strlit("1");
    reveal_strlit("2");
    reveal_strlit("3");
    reveal_strlit("4");
    reveal_strlit("5");
    reveal_strlit("6");
    reveal_strlit("7");
    reveal_strlit("8");
    reveal_strlit("9");
    reveal_strlit("*");
    reveal_strlit("0");
    reveal_strlit("#");
    reveal_strlit("xdg-open 'https://chatgpt.com/?temporary-chat=true'");
    reveal_strlit("xdg-open \"https://www.google.com/search?q=$(wl-paste)\"");
    reveal_strlit("qdbus6 org.kde.KWin /KWin org.kde.KWin.nextDesktop");
    reveal_strlit("kitty");
    reveal_strlit("sh -c 'tmp=$(mktemp /tmp/clipXXXX.md); wl-paste > $tmp; kitty -e nvim -c \"autocmd VimLeave * call delete(\\\"$tmp\\\")\" $tmp'");
    reveal_strlit("qdbus6 org.kde.KWin /KWin org.kde.KWin.previousDesktop");
    reveal_strlit("xdg-open \"https://www.youtube.com/\"");
    reveal_strlit("xdg-open \"https://drive.google.com/drive/u/0/my-drive\"");
    reveal_strlit("mpv \"$(wl-paste)\"");
    reveal_strlit("kitty -e nvim ~/Documents/[2] Obsidian");
    reveal_strlit("/home/mintori/.config/rofi/launchers/rofi-power-menu.sh");
    reveal_strlit("qdbus6 org.freedesktop.ScreenSaver /ScreenSaver Lock");
    assert("xdg-open 'https://chatgpt.com/?temporary-chat=true'"@.len() != "xdg-open \"https://www.google.com/search?q=$(wl-paste)\""@.len());
    assert("xdg-open 'https://chatgpt.com/?temporary-chat=true'"@.len() != "qdbus6 org.kde.KWin /KWin org.kde.KWin.nextDesktop"@.len());
    assert("xdg-open 'https://chatgpt.com/?temporary-chat=true'"@.len() != "qdbus6 org.kde.KWin /KWin org.kde.KWin.previousDesktop"@.len());
    assert("xdg-open 'https://chatgpt.com/?temporary-chat=true'"@.len() != "xdg-open \"https://www.youtube.com/\""@.len());
    assert("xdg-open 'https://chatgpt.com/?temporary-chat=true'"@.len() != "xdg-open \"https://drive.google.com/drive/u/0/my-drive\""@.len());
    assert("xdg-open 'https://chatgpt.com/?temporary-chat=true'"@.len() != "qdbus6 org.freedesktop.ScreenSaver /ScreenSaver Lock"@.len());
    assert("xdg-open \"https://www.google.com/search?q=$(wl-paste)\""@.len() != "qdbus6 org.kde.KWin /KWin org.kde.KWin.nextDesktop"@.len());
    assert("xdg-open \"https://www.google.com/search?q=$(wl-paste)\""@[0] != "qdbus6 org.kde.KWin /KWin org.kde.KWin.previousDesktop"@[0]);
    assert("xdg-open \"https://www.google.com/search?q=$(wl-paste)\""@.len() != "xdg-open \"https://www.youtube.com/\""@.len());
    assert("xdg-open \"https://www.google.com/search?q=$(wl-paste)\""@[18] != "xdg-open \"https://drive.google.com/drive/u/0/my-drive\""@[18]);
    assert("xdg-open \"https://www.google.com/search?q=$(wl-paste)\""@.len() != "qdbus6 org.freedesktop.ScreenSaver /ScreenSaver Lock"@.len());
    assert("qdbus6 org.kde.KWin /KWin org.kde.KWin.nextDesktop"@.len() != "qdbus6 org.kde.KWin /KWin org.kde.KWin.previousDesktop"@.len());
    assert("qdbus6 org.kde.KWin /KWin org.kde.KWin.nextDesktop"@.len() != "xdg-open \"https://www.youtube.com/\""@.len());
    assert("qdbus6 org.kde.KWin /KWin org.kde.KWin.nextDesktop"@.len() != "xdg-open \"https://drive.google.com/drive/u/0/my-drive\""@.len());
    assert("qdbus6 org.kde.KWin /KWin org.kde.KWin.nextDesktop"@.len() != "qdbus6 org.freedesktop.ScreenSaver /ScreenSaver Lock"@.len());
    assert("kitty"@.len() != "sh -c 'tmp=$(mktemp /tmp/clipXXXX.md); wl-paste > $tmp; kitty -e nvim -c \"autocmd VimLeave * call delete(\\\"$tmp\\\")\" $tmp'"@.len());
    assert("kitty"@.len() != "mpv \"$(wl-paste)\""@.len());
    assert("kitty"@.len() != "kitty -e nvim ~/Documents/[2] Obsidian"@.len());
    assert("kitty"@.len() != "/home/mintori/.config/rofi/launchers/rofi-power-menu.sh"@.len());
    assert("sh -c 'tmp=$(mktemp /tmp/clipXXXX.md); wl-paste > $tmp; kitty -e nvim -c \"autocmd VimLeave * call delete(\\\"$tmp\\\")\" $tmp'"@.len() != "mpv \"$(wl-paste)\""@.len());
    assert("sh -c 'tmp=$(mktemp /tmp/clipXXXX.md); wl-paste > $tmp; kitty -e nvim -c \"autocmd VimLeave * call delete(\\\"$tmp\\\")\" $tmp'"@.len() != "kitty -e nvim ~/Documents/[2] Obsidian"@.len());
    assert("sh -c 'tmp=$(mktemp /tmp/clipXXXX.md); wl-paste > $tmp; kitty -e nvim -c \"autocmd VimLeave * call delete(\\\"$tmp\\\")\" $tmp'"@.len() != "/home/mintori/.config/rofi/launchers/rofi-power-menu.sh"@.len());
    assert("qdbus6 org.kde.KWin /KWin org.kde.KWin.previousDesktop"@.len() != "xdg-open \"https://www.youtube.com/\""@.len());
    assert("qdbus6 org.kde.KWin /KWin org.kde.KWin.previousDesktop"@[0] != "xdg-open \"https://drive.google.com/drive/u/0/my-drive\""@[0]);
    assert("qdbus6 org.kde.KWin /KWin org.kde.KWin.previousDesktop"@.len() != "qdbus6 org.freedesktop.ScreenSaver /ScreenSaver Lock"@.len());
    assert("xdg-open \"https://www.youtube.com/\""@.len() != "xdg-open \"https://drive.google.com/drive/u/0/my-drive\""@.len());
    assert("xdg-open \"https://www.youtube.com/\""@.len() != "qdbus6 org.freedesktop.ScreenSaver /ScreenSaver Lock"@.len());
    assert("xdg-open \"https://drive.google.com/drive/u/0/my-drive\""@.len() != "qdbus6 org.freedesktop.ScreenSaver /ScreenSaver Lock"@.len());
    assert("mpv \"$(wl-paste)\""@.len() != "kitty -e nvim ~/Documents/[2] Obsidian"@.len());
    assert("mpv \"$(wl-paste)\""@.len() != "/home/mintori/.config/rofi/launchers/rofi-power-menu.sh"@.len());
    assert("kitty -e nvim ~/Documents/[2] Obsidian"@.len() != "/home/mintori/.config/rofi/launchers/rofi-power-menu.sh"@.len());
}

/// The Linux table for a hold: each listed key runs exactly the listed command,
/// and any other key has no binding.
pub proof fn law_linux_hold_table(key: Seq<char>)
    ensures
        key == "1"@ ==> linux::hold_binding(key) == ActionSpec::RunCommand("ydotool type \"git add . && git commit -m \'Update\' && git push\""@),
        key == "2"@ ==> linux::hold_binding(key) == ActionSpec::RunCommand("xdg-open \"https://shopee.vn/search?keyword=$(wl-paste)\""@),
        key == "3"@ ==> linux::hold_binding(key) == ActionSpec::RunCommand(""@),
        key == "4"@ ==> linux::hold_binding(key) == ActionSpec::RunApp("kitty -e zsh -c '$(wl-paste); echo; read -n 1 -s -r -p \"Press any key to exit...\"'"@),
        key == "5"@ ==> linux::hold_binding(key) == ActionSpec::RunApp(r#"kitty -e zsh -lc 'cd "$HOME/Documents/[2] Obsidian" && nvim'"#@),
        key == "6"@ ==> linux::hold_binding(key) == ActionSpec::RunCommand(""@),
        key == "7"@ ==> linux::hold_binding(key) == ActionSpec::RunApp("xdg-open \"https://www.youtube.com/results?search_query=$( wl-paste )\""@),
        key == "8"@ ==> linux::hold_binding(key) == ActionSpec::RunApp("kitty -e zsh -c \"sh '/home/mintori/.config/rofi/launchers/install-yay.sh'\""@),
        key == "9"@ ==> linux::hold_binding(key) == ActionSpec::RunCommand(""@),
        key == "0"@ ==> linux::hold_binding(key) == ActionSpec::RunCommand(r#"
                . ~/.config/shell/apikey.sh &&
                curl -s -H "Authorization: Bearer $HASS_TOKEN" \
                    -H "Content-Type: application/json" \
                    -d '{"entity_id": "input_boolean.cong_tac_dieu_hoa_phong_tri"}' \
                    http://192.168.10.80:8123/api/services/input_boolean/toggle
                "#@),
        key == "#"@ ==> linux::hold_binding(key) == ActionSpec::RunCommand("poweroff"@),
        key != "1"@ && key != "2"@ && key != "3"@ && key != "4"@ && key != "5"@ && key != "6"@ && key != "7"@ && key != "8"@ && key != "9"@ && key != "0"@ && key != "#"@ ==> linux::hold_binding(key) == ActionSpec::Unmapped,
{
    reveal_strlit("1");
    reveal_strlit("2");
    reveal_strlit("3");
    reveal_strlit("4");
    reveal_strlit("5");
    reveal_strlit("6");
    reveal_strlit("7");
    reveal_strlit("8");
    reveal_strlit("9");
    reveal_strlit("0");
    reveal_strlit("#");
    assert("1"@ != "2"@) by {
        assert("1"@[0] != "2"@[0]);
    }
    assert("1"@ != "3"@) by {
        assert("1"@[0] != "3"@[0]);
    }
    assert("1"@ != "4"@) by {
        assert("1"@[0] != "4"@[0]);
    }
    assert("1"@ != "5"@) by {
        assert("1"@[0] != "5"@[0]);
    }
    assert("1"@ != "6"@) by {
        assert("1"@[0] != "6"@[0]);
    }
    assert("1"@ != "7"@) by {
        assert("1"@[0] != "7"@[0]);
    }
    assert("1"@ != "8"@) by {
        assert("1"@[0] != "8"@[0]);
    }
    assert("1"@ != "9"@) by {
        assert("1"@[0] != "9"@[0]);
    }
    assert("1"@ != "0"@) by {
        assert("1"@[0] != "0"@[0]);
    }
    assert("1"@ != "#"@) by {
        assert("1"@[0] != "#"@[0]);
    }
    assert("2"@ != "3"@) by {
        assert("2"@[0] != "3"@[0]);
    }
    assert("2"@ != "4"@) by {
        assert("2"@[0] != "4"@[0]);
    }
    assert("2"@ != "5"@) by {
        assert("2"@[0] != "5"@[0]);
    }
    assert("2"@ != "6"@) by {
        assert("2"@[0] != "6"@[0]);
    }
    assert("2"@ != "7"@) by {
        assert("2"@[0] != "7"@[0]);
    }
    assert("2"@ != "8"@) by {
        assert("2"@[0] != "8"@[0]);
    }
    assert("2"@ != "9"@) by {
        assert("2"@[0] != "9"@[0]);
    }
    assert("2"@ != "0"@) by {
        assert("2"@[0] != "0"@[0]);
    }
    assert("2"@ != "#"@) by {
        assert("2"@[0] != "#"@[0]);
    }
    assert("3"@ != "4"@) by {
        assert("3"@[0] != "4"@[0]);
    }
    assert("3"@ != "5"@) by {
        assert("3"@[0] != "5"@[0]);
    }
    assert("3"@ != "6"@) by {
        assert("3"@[0] != "6"@[0]);
    }
    assert("3"@ != "7"@) by {
        assert("3"@[0] != "7"@[0]);
    }
    assert("3"@ != "8"@) by {
        assert("3"@[0] != "8"@[0]);
    }
    assert("3"@ != "9"@) by {
        assert("3"@[0] != "9"@[0]);
    }
    assert("3"@ != "0"@) by {
        assert("3"@[0] != "0"@[0]);
    }
    assert("3"@ != "#"@) by {
        assert("3"@[0] != "#"@[0]);
    }
    assert("4"@ != "5"@) by {
        assert("4"@[0] != "5"@[0]);
    }
    assert("4"@ != "6"@) by {
        assert("4"@[0] != "6"@[0]);
    }
    assert("4"@ != "7"@) by {
        assert("4"@[0] != "7"@[0]);
    }
    assert("4"@ != "8"@) by {
        assert("4"@[0] != "8"@[0]);
    }
    assert("4"@ != "9"@) by {
        assert("4"@[0] != "9"@[0]);
    }
    assert("4"@ != "0"@) by {
        assert("4"@[0] != "0"@[0]);
    }
    assert("4"@ != "#"@) by {
        assert("4"@[0] != "#"@[0]);
    }
    assert("5"@ != "6"@) by {
        assert("5"@[0] != "6"@[0]);
    }
    assert("5"@ != "7"@) by {
        assert("5"@[0] != "7"@[0]);
    }
    assert("5"@ != "8"@) by {
        assert("5"@[0] != "8"@[0]);
    }
    assert("5"@ != "9"@) by {
        assert("5"@[0] != "9"@[0]);
    }
    assert("5"@ != "0"@) by {
        assert("5"@[0] != "0"@[0]);
    }
    assert("5"@ != "#"@) by {
        assert("5"@[0] != "#"@[0]);
    }
    assert("6"@ != "7"@) by {
        assert("6"@[0] != "7"@[0]);
    }
    assert("6"@ != "8"@) by {
        assert("6"@[0] != "8"@[0]);
    }
    assert("6"@ != "9"@) by {
        assert("6"@[0] != "9"@[0]);
    }
    assert("6"@ != "0"@) by {
        assert("6"@[0] != "0"@[0]);
    }
    assert("6"@ != "#"@) by {
        assert("6"@[0] != "#"@[0]);
    }
    assert("7"@ != "8"@) by {
        assert("7"@[0] != "8"@[0]);
    }
    assert("7"@ != "9"@) by {
        assert("7"@[0] != "9"@[0]);
    }
    assert("7"@ != "0"@) by {
        assert("7"@[0] != "0"@[0]);
    }
    assert("7"@ != "#"@) by {
        assert("7"@[0] != "#"@[0]);
    }
    assert("8"@ != "9"@) by {
        assert("8"@[0] != "9"@[0]);
    }
    assert("8"@ != "0"@) by {
        assert("8"@[0] != "0"@[0]);
    }
    assert("8"@ != "#"@) by {
        assert("8"@[0] != "#"@[0]);
    }
    assert("9"@ != "0"@) by {
        assert("9"@[0] != "0"@[0]);
    }
    assert("9"@ != "#"@) by {
        assert("9"@[0] != "#"@[0]);
    }
    assert("0"@ != "#"@) by {
        assert("0"@[0] != "#"@[0]);
    }
}

/// The Windows table for a short press: each listed key runs exactly the listed command,
/// and any other key has no binding.
pub proof fn law_windows_press_table(key: Seq<char>)
    ensures
        key == "1"@ ==> windows::press_binding(key) == ActionSpec::RunCommand("start https://chat.openai.com"@),
        key == "2"@ ==> windows::press_binding(key) == ActionSpec::RunCommand("powershell -Command \"Start-Process 'https://www.google.com/search?q=' + (Get-Clipboard)\""@),
        key == "3"@ ==> windows::press_binding(key) == ActionSpec::Print("Virtual desktop navigation not implemented on Windows."@),
        key == "4"@ ==> windows::press_binding(key) == ActionSpec::RunApp("wt.exe"@),
        key == "5"@ ==> windows::press_binding(key) == ActionSpec::RunCommand("powershell -Command \"$tmp = New-TemporaryFile; Get-Clipboard | Out-File -FilePath $tmp; wt.exe new-tab nvim $tmp\""@),
        key == "6"@ ==> windows::press_binding(key) == ActionSpec::Print("Previous desktop navigation not implemented on Windows."@),
        key == "7"@ ==> windows::press_binding(key) == ActionSpec::RunCommand("start https://www.youtube.com/"@),
        key == "8"@ ==> windows::press_binding(key) == ActionSpec::RunCommand("start https://onedrive.live.com/?view=0"@),
        key == "9"@ ==> windows::press_binding(key) == ActionSpec::RunCommand("powershell -Command \"Start-Process 'mpv' (Get-Clipboard)\""@),
        key == "*"@ ==> windows::press_binding(key) == ActionSpec::RunApp("wt.exe -d %USERPROFILE%\\Documents\\Obsidian nvim ."@),
        key == "0"@ ==> windows::press_binding(key) == ActionSpec::RunApp("powershell -Command \"Start-Process 'C:\\Users\\mintori\\.config\\rofi\\launchers\\rofi-power-menu.bat'\""@),
        key == "#"@ ==> windows::press_binding(key) == ActionSpec::RunCommand("rundll32.exe user32.dll,LockWorkStation"@),
        key != "1"@ && key != "2"@ && key != "3"@ && key != "4"@ && key != "5"@ && key != "6"@ && key != "7"@ && key != "8"@ && key != "9"@ && key != "*"@ && key != "0"@ && key != "#"@ ==> windows::press_binding(key) == ActionSpec::Unmapped,
{
    reveal_strlit("1");
    reveal_strlit("2");
    reveal_strlit("3");
    reveal_strlit("4");
    reveal_strlit("5");
    reveal_strlit("6");
    reveal_strlit("7");
    reveal_strlit("8");
    reveal_strlit("9");
    reveal_strlit("*");
    reveal_strlit("0");
    reveal_strlit("#");
    assert("1"@ != "2"@) by {
        assert("1"@[0] != "2"@[0]);
    }
    assert("1"@ != "3"@) by {
        assert("1"@[0] != "3"@[0]);
    }
    assert("1"@ != "4"@) by {
        assert("1"@[0] != "4"@[0]);
    }
    assert("1"@ != "5"@) by {
        assert("1"@[0] != "5"@[0]);
    }
    assert("1"@ != "6"@) by {
        assert("1"@[0] != "6"@[0]);
    }
    assert("1"@ != "7"@) by {
        assert("1"@[0] != "7"@[0]);
    }
    assert("1"@ != "8"@) by {
        assert("1"@[0] != "8"@[0]);
    }
    assert("1"@ != "9"@) by {
        assert("1"@[0] != "9"@[0]);
    }
    assert("1"@ != "*"@) by {
        assert("1"@[0] != "*"@[0]);
    }
    assert("1"@ != "0"@) by {
        assert("1"@[0] != "0"@[0]);
    }
    assert("1"@ != "#"@) by {
        assert("1"@[0] != "#"@[0]);
    }
    assert("2"@ != "3"@) by {
        assert("2"@[0] != "3"@[0]);
    }
    assert("2"@ != "4"@) by {
        assert("2"@[0] != "4"@[0]);
    }
    assert("2"@ != "5"@) by {
        assert("2"@[0] != "5"@[0]);
    }
    assert("2"@ != "6"@) by {
        assert("2"@[0] != "6"@[0]);
    }
    assert("2"@ != "7"@) by {
        assert("2"@[0] != "7"@[0]);
    }
    assert("2"@ != "8"@) by {
        assert("2"@[0] != "8"@[0]);
    }
    assert("2"@ != "9"@) by {
        assert("2"@[0] != "9"@[0]);
    }
    assert("2"@ != "*"@) by {
        assert("2"@[0] != "*"@[0]);
    }
    assert("2"@ != "0"@) by {
        assert("2"@[0] != "0"@[0]);
    }
    assert("2"@ != "#"@) by {
        assert("2"@[0] != "#"@[0]);
    }
    assert("3"@ != "4"@) by {
        assert("3"@[0] != "4"@[0]);
    }
    assert("3"@ != "5"@) by {
        assert("3"@[0] != "5"@[0]);
    }
    assert("3"@ != "6"@) by {
        assert("3"@[0] != "6"@[0]);
    }
    assert("3"@ != "7"@) by {
        assert("3"@[0] != "7"@[0]);
    }
    assert("3"@ != "8"@) by {
        assert("3"@[0] != "8"@[0]);
    }
    assert("3"@ != "9"@) by {
        assert("3"@[0] != "9"@[0]);
    }
    assert("3"@ != "*"@) by {
        assert("3"@[0] != "*"@[0]);
    }
    assert("3"@ != "0"@) by {
        assert("3"@[0] != "0"@[0]);
    }
    assert("3"@ != "#"@) by {
        assert("3"@[0] != "#"@[0]);
    }
    assert("4"@ != "5"@) by {
        assert("4"@[0] != "5"@[0]);
    }
    assert("4"@ != "6"@) by {
        assert("4"@[0] != "6"@[0]);
    }
    assert("4"@ != "7"@) by {
        assert("4"@[0] != "7"@[0]);
    }
    assert("4"@ != "8"@) by {
        assert("4"@[0] != "8"@[0]);
    }
    assert("4"@ != "9"@) by {
        assert("4"@[0] != "9"@[0]);
    }
    assert("4"@ != "*"@) by {
        assert("4"@[0] != "*"@[0]);
    }
    assert("4"@ != "0"@) by {
        assert("4"@[0] != "0"@[0]);
    }
    assert("4"@ != "#"@) by {
        assert("4"@[0] != "#"@[0]);
    }
    assert("5"@ != "6"@) by {
        assert("5"@[0] != "6"@[0]);
    }
    assert("5"@ != "7"@) by {
        assert("5"@[0] != "7"@[0]);
    }
    assert("5"@ != "8"@) by {
        assert("5"@[0] != "8"@[0]);
    }
    assert("5"@ != "9"@) by {
        assert("5"@[0] != "9"@[0]);
    }
    assert("5"@ != "*"@) by {
        assert("5"@[0] != "*"@[0]);
    }
    assert("5"@ != "0"@) by {
        assert("5"@[0] != "0"@[0]);
    }
    assert("5"@ != "#"@) by {
        assert("5"@[0] != "#"@[0]);
    }
    assert("6"@ != "7"@) by {
        assert("6"@[0] != "7"@[0]);
    }
    assert("6"@ != "8"@) by {
        assert("6"@[0] != "8"@[0]);
    }
    assert("6"@ != "9"@) by {
        assert("6"@[0] != "9"@[0]);
    }
    assert("6"@ != "*"@) by {
        assert("6"@[0] != "*"@[0]);
    }
    assert("6"@ != "0"@) by {
        assert("6"@[0] != "0"@[0]);
    }
    assert("6"@ != "#"@) by {
        assert("6"@[0] != "#"@[0]);
    }
    assert("7"@ != "8"@) by {
        assert("7"@[0] != "8"@[0]);
    }
    assert("7"@ != "9"@) by {
        assert("7"@[0] != "9"@[0]);
    }
    assert("7"@ != "*"@) by {
        assert("7"@[0] != "*"@[0]);
    }
    assert("7"@ != "0"@) by {
        assert("7"@[0] != "0"@[0]);
    }
    assert("7"@ != "#"@) by {
        assert("7"@[0] != "#"@[0]);
    }
    assert("8"@ != "9"@) by {
        assert("8"@[0] != "9"@[0]);
    }
    assert("8"@ != "*"@) by {
        assert("8"@[0] != "*"@[0]);
    }
    assert("8"@ != "0"@) by {
        assert("8"@[0] != "0"@[0]);
    }
    assert("8"@ != "#"@) by {
        assert("8"@[0] != "#"@[0]);
    }
    assert("9"@ != "*"@) by {
        assert("9"@[0] != "*"@[0]);
    }
    assert("9"@ != "0"@) by {
        assert("9"@[0] != "0"@[0]);
    }
    assert("9"@ != "#"@) by {
        assert("9"@[0] != "#"@[0]);
    }
    assert("*"@ != "0"@) by {
        assert("*"@[0] != "0"@[0]);
    }
    assert("*"@ != "#"@) by {
        assert("*"@[0] != "#"@[0]);
    }
    assert("0"@ != "#"@) by {
        assert("0"@[0] != "#"@[0]);
    }
}

/// In the Windows table for a short press, no two keys run the same thing.
pub proof fn law_windows_press_distinct(a: Seq<char>, b: Seq<char>)
    requires
        a != b,
        !(windows::press_binding(a) is Unmapped),
        !(windows::press_binding(b) is Unmapped),
    ensures
        windows::press_binding(a) != windows::press_binding(b),
{
    law_windows_press_table(a);
    law_windows_press_table(b);
    reveal_strlit("1");
    reveal_strlit("2");
    reveal_strlit("3");
    reveal_strlit("4");
    reveal_strlit("5");
    reveal_strlit("6");
    reveal_strlit("7");
    reveal_strlit("8");
    reveal_strlit("9");
    reveal_strlit("*");
    reveal_strlit("0");
    reveal_strlit("#");
    reveal_strlit("start https://chat.openai.com");
    reveal_strlit("powershell -Command \"Start-Process 'https://www.google.com/search?q=' + (Get-Clipboard)\"");
    reveal_strlit("Virtual desktop navigation not implemented on Windows.");
    reveal_strlit("wt.exe");
    reveal_strlit("powershell -Command \"$tmp = New-TemporaryFile; Get-Clipboard | Out-File -FilePath $tmp; wt.exe new-tab nvim $tmp\"");
    reveal_strlit("Previous desktop navigation not implemented on Windows.");
    reveal_strlit("start https://www.youtube.com/");
    reveal_strlit("start https://onedrive.live.com/?view=0");
    reveal_strlit("powershell -Command \"Start-Process 'mpv' (Get-Clipboard)\"");
    reveal_strlit("wt.exe -d %USERPROFILE%\\Documents\\Obsidian nvim .");
    reveal_strlit("powershell -Command \"Start-Process 'C:\\Users\\mintori\\.config\\rofi\\launchers\\rofi-power-menu.bat'\"");
    reveal_strlit("rundll32.exe user32.dll,LockWorkStation");
    assert("start https://chat.openai.com"@.len() != "powershell -Command \"Start-Process 'https://www.google.com/search?q=' + (Get-Clipboard)\""@.len());
    assert("start https://chat.openai.com"@.len() != "powershell -Command \"$tmp = New-TemporaryFile; Get-Clipboard | Out-File -FilePath $tmp; wt.exe new-tab nvim $tmp\""@.len());
    assert("start https://chat.openai.com"@.len() != "start https://www.youtube.com/"@.len());
    assert("start https://chat.openai.com"@.len() != "start https://onedrive.live.com/?view=0"@.len());
    assert("start https://chat.openai.com"@.len() != "powershell -Command \"Start-Process 'mpv' (Get-Clipboard)\""@.len());
    assert("start https://chat.openai.com"@.len() != "rundll32.exe user32.dll,LockWorkStation"@.len());
    assert("powershell -Command \"Start-Process 'https://www.google.com/search?q=' + (Get-Clipboard)\""@.len() != "powershell -Command \"$tmp = New-TemporaryFile; Get-Clipboard | Out-File -FilePath $tmp; wt.exe new-tab nvim $tmp\""@.len());
    assert("powershell -Command \"Start-Process 'https://www.google.com/search?q=' + (Get-Clipboard)\""@.len() != "start https://www.youtube.com/"@.len());
    assert("powershell -Command \"Start-Process 'https://www.google.com/search?q=' + (Get-Clipboard)\""@.len() != "start https://onedrive.live.com/?view=0"@.len());
    assert("powershell -Command \"Start-Process 'https://www.google.com/search?q=' + (Get-Clipboard)\""@.len() != "powershell -Command \"Start-Process 'mpv' (Get-Clipboard)\""@.len());
    assert("powershell -Command \"Start-Process 'https://www.google.com/search?q=' + (Get-Clipboard)\""@.len() != "rundll32.exe user32.dll,LockWorkStation"@.len());
    assert("Virtual desktop navigation not implemented on Windows."@.len() != "Previous desktop navigation not implemented on Windows."@.len());
    assert("wt.exe"@.len() != "wt.exe -d %USERPROFILE%\\Documents\\Obsidian nvim ."@.len());
    assert("wt.exe"@.len() != "powershell -Command \"Start-Process 'C:\\Users\\mintori\\.config\\rofi\\launchers\\rofi-power-menu.bat'\""@.len());
    assert("powershell -Command \"$tmp = New-TemporaryFile; Get-Clipboard | Out-File -FilePath $tmp; wt.exe new-tab nvim $tmp\""@.len() != "start https://www.youtube.com/"@.len());
    assert("powershell -Command \"$tmp = New-TemporaryFile; Get-Clipboard | Out-File -FilePath $tmp; wt.exe new-tab nvim $tmp\""@.len() != "start https://onedrive.live.com/?view=0"@.len());
    assert("powershell -Command \"$tmp = New-TemporaryFile; Get-Clipboard | Out-File -FilePath $tmp; wt.exe new-tab nvim $tmp\""@.len() != "powershell -Command \"Start-Process 'mpv' (Get-Clipboard)\""@.len());
    assert("powershell -Command \"$tmp = New-TemporaryFile; Get-Clipboard | Out-File -FilePath $tmp; wt.exe new-tab nvim $tmp\""@.len() != "rundll32.exe user32.dll,LockWorkStation"@.len());
    assert("start https://www.youtube.com/"@.len() != "start https://onedrive.live.com/?view=0"@.len());
    assert("start https://www.youtube.com/"@.len() != "powershell -Command \"Start-Process 'mpv' (Get-Clipboard)\""@.len());
    assert("start https://www.youtube.com/"@.len() != "rundll32.exe user32.dll,LockWorkStation"@.len());
    assert("start https://onedrive.live.com/?view=0"@.len() != "powershell -Command \"Start-Process 'mpv' (Get-Clipboard)\""@.len());
    assert("start https://onedrive.live.com/?view=0"@[0] != "rundll32.exe user32.dll,LockWorkStation"@[0]);
    assert("powershell -Command \"Start-Process 'mpv' (Get-Clipboard)\""@.len() != "rundll32.exe user32.dll,LockWorkStation"@.len());
    assert("wt.exe -d %USERPROFILE%\\Documents\\Obsidian nvim ."@.len() != "powershell -Command \"Start-Process 'C:\\Users\\mintori\\.config\\rofi\\launchers\\rofi-power-menu.bat'\""@.len());
}

/// The Windows table for a hold: each listed key runs exactly the listed command,
/// and any other key has no binding.
pub proof fn law_windows_hold_table(key: Seq<char>)
    ensures
        key == "1"@ ==> windows::hold_binding(key) == ActionSpec::RunCommand("powershell -Command \"git add .; git commit -m 'Update'; git push\""@),
        key == "2"@ ==> windows::hold_binding(key) == ActionSpec::RunCommand("powershell -Command \"Start-Process 'https://shopee.vn/search?keyword=' + (Get-Clipboard)\""@),
        key == "4"@ ==> windows::hold_binding(key) == ActionSpec::RunApp("wt.exe new-tab powershell -NoExit -Command \"(Get-Clipboard); Read-Host 'Press Enter to exit...'\""@),
        key == "5"@ ==> windows::hold_binding(key) == ActionSpec::RunApp("wt.exe -d %USERPROFILE%\\Documents\\Obsidian nvim ."@),
        key == "7"@ ==> windows::hold_binding(key) == ActionSpec::RunCommand("powershell -Command \"Start-Process 'https://www.youtube.com/results?search_query=' + (Get-Clipboard)\""@),
        key == "8"@ ==> windows::hold_binding(key) == ActionSpec::RunCommand("powershell -Command \"Start-Process 'C:\\Users\\mintori\\.config\\rofi\\launchers\\install-yay.ps1'\""@),
        key == "#"@ ==> windows::hold_binding(key) == ActionSpec::RunCommand("shutdown /s /t 0"@),
        key != "1"@ && key != "2"@ && key != "4"@ && key != "5"@ && key != "7"@ && key != "8"@ && key != "#"@ ==> windows::hold_binding(key) == ActionSpec::Unmapped,
{
    reveal_strlit("1");
    reveal_strlit("2");
    reveal_strlit("4");
    reveal_strlit("5");
    reveal_strlit("7");
    reveal_strlit("8");
    reveal_strlit("#");
    assert("1"@ != "2"@) by {
        assert("1"@[0] != "2"@[0]);
    }
    assert("1"@ != "4"@) by {
        assert("1"@[0] != "4"@[0]);
    }
    assert("1"@ != "5"@) by {
        assert("1"@[0] != "5"@[0]);
    }
    assert("1"@ != "7"@) by {
        assert("1"@[0] != "7"@[0]);
    }
    assert("1"@ != "8"@) by {
        assert("1"@[0] != "8"@[0]);
    }
    assert("1"@ != "#"@) by {
        assert("1"@[0] != "#"@[0]);
    }
    assert("2"@ != "4"@) by {
        assert("2"@[0] != "4"@[0]);
    }
    assert("2"@ != "5"@) by {
        assert("2"@[0] != "5"@[0]);
    }
    assert("2"@ != "7"@) by {
        assert("2"@[0] != "7"@[0]);
    }
    assert("2"@ != "8"@) by {
        assert("2"@[0] != "8"@[0]);
    }
    assert("2"@ != "#"@) by {
        assert("2"@[0] != "#"@[0]);
    }
    assert("4"@ != "5"@) by {
        assert("4"@[0] != "5"@[0]);
    }
    assert("4"@ != "7"@) by {
        assert("4"@[0] != "7"@[0]);
    }
    assert("4"@ != "8"@) by {
        assert("4"@[0] != "8"@[0]);
    }
    assert("4"@ != "#"@) by {
        assert("4"@[0] != "#"@[0]);
    }
    assert("5"@ != "7"@) by {
        assert("5"@[0] != "7"@[0]);
    }
    assert("5"@ != "8"@) by {
        assert("5"@[0] != "8"@[0]);
    }
    assert("5"@ != "#"@) by {
        assert("5"@[0] != "#"@[0]);
    }
    assert("7"@ != "8"@) by {
        assert("7"@[0] != "8"@[0]);
    }
    assert("7"@ != "#"@) by {
        assert("7"@[0] != "#"@[0]);
    }
    assert("8"@ != "#"@) by {
        assert("8"@[0] != "#"@[0]);
    }
}

/// In the Windows table for a hold, no two keys run the same thing.
pub proof fn law_windows_hold_distinct(a: Seq<char>, b: Seq<char>)
    requires
        a != b,
        !(windows::hold_binding(a) is Unmapped),
        !(windows::hold_binding(b) is Unmapped),
    ensures
        windows::hold_binding(a) != windows::hold_binding(b),
{
    law_windows_hold_table(a);
    law_windows_hold_table(b);
    reveal_strlit("1");
    reveal_strlit("2");
    reveal_strlit("4");
    reveal_strlit("5");
    reveal_strlit("7");
    reveal_strlit("8");
    reveal_strlit("#");
    reveal_strlit("powershell -Command \"git add .; git commit -m 'Update'; git push\"");
    reveal_strlit("powershell -Command \"Start-Process 'https://shopee.vn/search?keyword=' + (Get-Clipboard)\"");
    reveal_strlit("wt.exe new-tab powershell -NoExit -Command \"(Get-Clipboard); Read-Host 'Press Enter to exit...'\"");
    reveal_strlit("wt.exe -d %USERPROFILE%\\Documents\\Obsidian nvim .");
    reveal_strlit("powershell -Command \"Start-Process 'https://www.youtube.com/results?search_query=' + (Get-Clipboard)\"");
    reveal_strlit("powershell -Command \"Start-Process 'C:\\Users\\mintori\\.config\\rofi\\launchers\\install-yay.ps1'\"");
    reveal_strlit("shutdown /s /t 0");
    assert("powershell -Command \"git add .; git commit -m 'Update'; git push\""@.len() != "powershell -Command \"Start-Process 'https://shopee.vn/search?keyword=' + (Get-Clipboard)\""@.len());
    assert("powershell -Command \"git add .; git commit -m 'Update'; git push\""@.len() != "powershell -Command \"Start-Process 'https://www.youtube.com/results?search_query=' + (Get-Clipboard)\""@.len());
    assert("powershell -Command \"git add .; git commit -m 'Update'; git push\""@.len() != "powershell -Command \"Start-Process 'C:\\Users\\mintori\\.config\\rofi\\launchers\\install-yay.ps1'\""@.len());
    assert("powershell -Command \"git add .; git commit -m 'Update'; git push\""@.len() != "shutdown /s /t 0"@.len());
    assert("powershell -Command \"Start-Process 'https://shopee.vn/search?keyword=' + (Get-Clipboard)\""@.len() != "powershell -Command \"Start-Process 'https://www.youtube.com/results?search_query=' + (Get-Clipboard)\""@.len());
    assert("powershell -Command \"Start-Process 'https://shopee.vn/search?keyword=' + (Get-Clipboard)\""@.len() != "powershell -Command \"Start-Process 'C:\\Users\\mintori\\.config\\rofi\\launchers\\install-yay.ps1'\""@.len());
    assert("powershell -Command \"Start-Process 'https://shopee.vn/search?keyword=' + (Get-Clipboard)\""@.len() != "shutdown /s /t 0"@.len());
    assert("wt.exe new-tab powershell -NoExit -Command \"(Get-Clipboard); Read-Host 'Press Enter to exit...'\""@.len() != "wt.exe -d %USERPROFILE%\\Documents\\Obsidian nvim ."@.len());
    assert("powershell -Command \"Start-Process 'https://www.youtube.com/results?search_query=' + (Get-Clipboard)\""@.len() != "powershell -Command \"Start-Process 'C:\\Users\\mintori\\.config\\rofi\\launchers\\install-yay.ps1'\""@.len());
    assert("powershell -Command \"Start-Process 'https://www.youtube.com/results?search_query=' + (Get-Clipboard)\""@.len() != "shutdown /s /t 0"@.len());
    assert("powershell -Command \"Start-Process 'C:\\Users\\mintori\\.config\\rofi\\launchers\\install-yay.ps1'\""@.len() != "shutdown /s /t 0"@.len());
}

} // verus!
