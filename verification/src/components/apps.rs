//! The icon and the colours that stand for an application.
//!
//! A window is known by its class and its title, both in lower case. A
//! program that runs in a terminal is told by the title; for all others the
//! class decides.

use vstd::prelude::*;
use vstd::string::*;
use crate::style::Color;
use crate::text::{contains, lowercase, starts_with, str_contains, str_eq, str_starts_with, to_lowercase};

verus! {

/// The icon that the title alone gives, where it names a terminal program.
pub open spec fn title_icon(title: Seq<char>) -> Option<Seq<char>> {
    if starts_with(title, "nvim"@) || contains(title, "neovim"@) {
        Some("\u{e62b}"@)
    } else if starts_with(title, "vim"@) {
        Some("\u{e7c5}"@)
    } else if starts_with(title, "emacs"@) {
        Some("\u{f0379}"@)
    } else if starts_with(title, "nano"@) {
        Some("\u{e7c5}"@)
    } else if starts_with(title, "htop"@) || starts_with(title, "btop"@) {
        Some("\u{f051a}"@)
    } else if starts_with(title, "yazi"@) {
        Some("\u{f01e5}"@)
    } else if starts_with(title, "ranger"@) || starts_with(title, "lf"@) {
        Some("\u{f024b}"@)
    } else if starts_with(title, "git"@) {
        Some("\u{f02a2}"@)
    } else if starts_with(title, "man"@) {
        Some("\u{f0379}"@)
    } else if starts_with(title, "ssh"@) {
        Some("\u{f08c0}"@)
    } else if starts_with(title, "cmus"@) || starts_with(title, "ncmpcpp"@) {
        Some("\u{f04c7}"@)
    } else {
        None
    }
}

/// The icon of a class; a class that is not listed gets the last one.
pub open spec fn class_icon(class: Seq<char>) -> Seq<char> {
    if class == "firefox"@ || class == "firefox-developer-edition"@ {
        "\u{f0239}"@
    } else if class == "google-chrome"@ || class == "chrome"@ {
        "\u{f02af}"@
    } else if class == "chromium"@ {
        "\u{f02af}"@
    } else if class == "brave-browser"@ {
        "\u{f059f}"@
    } else if class == "librewolf"@ {
        "\u{f0239}"@
    } else if class == "vivaldi"@ {
        "\u{f059f}"@
    } else if class == "opera"@ {
        "\u{f059f}"@
    } else if class == "edge"@ {
        "\u{f01e9}"@
    } else if class == "helium"@ {
        "\u{f059f}"@
    } else if class == "kitty"@ {
        "\u{f011b}"@
    } else if class == "alacritty"@ {
        "\u{f018d}"@
    } else if class == "gnome-terminal"@ {
        "\u{f018d}"@
    } else if class == "konsole"@ {
        "\u{f018d}"@
    } else if class == "xterm"@ {
        "\u{f018d}"@
    } else if class == "neovide"@ {
        "\u{e62b}"@
    } else if class == "code"@ || class == "code-oss"@ {
        "\u{f0a1e}"@
    } else if class == "sublime_text"@ {
        "\u{f016a}"@
    } else if class == "zathura"@ {
        "\u{f0226}"@
    } else if class == "evince"@ {
        "\u{f0226}"@
    } else if class == "okular"@ {
        "\u{f0226}"@
    } else if class == "qpdfview"@ {
        "\u{f0226}"@
    } else if class == "mupdf"@ {
        "\u{f0226}"@
    } else if class == "qview"@ {
        "\u{f02e9}"@
    } else if class == "feh"@ {
        "\u{f02e9}"@
    } else if class == "nomacs"@ {
        "\u{f02e9}"@
    } else if class == "gwenview"@ {
        "\u{f02e9}"@
    } else if class == "eog"@ {
        "\u{f02e9}"@
    } else if class == "sxiv"@ {
        "\u{f02e9}"@
    } else if class == "mpv"@ {
        "\u{f0439}"@
    } else if class == "vlc"@ {
        "\u{f057c}"@
    } else if class == "smplayer"@ {
        "\u{f0439}"@
    } else if class == "celluloid"@ {
        "\u{f0439}"@
    } else if class == "spotify"@ {
        "\u{f04c7}"@
    } else if class == "rhythmbox"@ {
        "\u{f04c7}"@
    } else if class == "audacious"@ {
        "\u{f04c7}"@
    } else if class == "cmus"@ {
        "\u{f04c7}"@
    } else if class == "ncmpcpp"@ {
        "\u{f04c7}"@
    } else if class == "gimp"@ {
        "\u{f03d8}"@
    } else if class == "aseprite"@ {
        "\u{f01a7}"@
    } else if class == "inkscape"@ {
        "\u{f076b}"@
    } else if class == "blender"@ {
        "\u{f00ab}"@
    } else if class == "krita"@ {
        "\u{f03d8}"@
    } else if class == "obs"@ {
        "\u{f0540}"@
    } else if class == "discord"@ {
        "\u{f066f}"@
    } else if class == "telegramdesktop"@ || class == "telegram"@ {
        "\u{f0228}"@
    } else if class == "slack"@ {
        "\u{f04b1}"@
    } else if class == "signal"@ {
        "\u{f0366}"@
    } else if class == "thunderbird"@ {
        "\u{f01f0}"@
    } else if class == "geary"@ {
        "\u{f01f0}"@
    } else if class == "thunar"@ {
        "\u{f024b}"@
    } else if class == "dolphin"@ {
        "\u{f024b}"@
    } else if class == "nautilus"@ {
        "\u{f024b}"@
    } else if class == "pcmanfm"@ {
        "\u{f024b}"@
    } else if class == "nvtop"@ {
        "\u{f035b}"@
    } else if class == "pavucontrol"@ {
        "\u{f075a}"@
    } else if class == "networkmanager_dmenu"@ {
        "\u{f0928}"@
    } else if class == "libreoffice-writer"@ {
        "\u{f03ea}"@
    } else if class == "libreoffice-calc"@ {
        "\u{f021b}"@
    } else if class == "libreoffice-impress"@ {
        "\u{f03a7}"@
    } else if class == "onlyoffice-desktopeditors"@ {
        "\u{f03ea}"@
    } else if class == "postman"@ {
        "\u{f0bae}"@
    } else if class == "insomnia"@ {
        "\u{f0626}"@
    } else if class == "gitkraken"@ {
        "\u{f02a2}"@
    } else if class == "figma-linux"@ {
        "\u{f0fed}"@
    } else if class == "wine"@ || class == "winecfg"@ {
        "\u{f0876}"@
    } else if class == "steam"@ {
        "\u{f04d3}"@
    } else if class == "lutris"@ {
        "\u{f0bad}"@
    } else if class == "heroic"@ {
        "\u{f0511}"@
    } else if class == "minecraft"@ {
        "\u{f0373}"@
    } else {
        "\u{f035c}"@
    }
}

/// The icon of a window with this class and title, both in lower case.
pub open spec fn app_icon(class: Seq<char>, title: Seq<char>) -> Seq<char> {
    match title_icon(title) {
        Some(icon) => icon,
        None => class_icon(class),
    }
}

/// The background and text colour that the title alone gives, where it
/// names a terminal program.
pub open spec fn title_colors(title: Seq<char>) -> Option<(Color, Color)> {
    if starts_with(title, "nvim"@) || contains(title, "neovim"@) {
        Some((Color::Rgb(0, 107, 84), Color::White))
    } else if starts_with(title, "vim"@) {
        Some((Color::Rgb(19, 134, 71), Color::White))
    } else if starts_with(title, "emacs"@) {
        Some((Color::Rgb(146, 35, 127), Color::White))
    } else if starts_with(title, "htop"@) || starts_with(title, "btop"@) {
        Some((Color::Rgb(255, 152, 0), Color::Black))
    } else if starts_with(title, "yazi"@) {
        Some((Color::Rgb(255, 200, 87), Color::Black))
    } else if starts_with(title, "ranger"@) || starts_with(title, "lf"@) {
        Some((Color::Rgb(41, 128, 185), Color::White))
    } else if starts_with(title, "git"@) {
        Some((Color::Rgb(240, 80, 50), Color::White))
    } else if starts_with(title, "ssh"@) {
        Some((Color::Rgb(0, 100, 200), Color::White))
    } else if starts_with(title, "cmus"@) || starts_with(title, "ncmpcpp"@) {
        Some((Color::Rgb(29, 185, 84), Color::White))
    } else {
        None
    }
}

/// The background and text colour of a class; gray and white for a class
/// that is not listed.
pub open spec fn class_colors(class: Seq<char>) -> (Color, Color) {
    if class == "firefox"@ || class == "firefox-developer-edition"@ || class == "librewolf"@ {
        (Color::Rgb(255, 119, 0), Color::Black)
    } else if class == "google-chrome"@ || class == "chrome"@ || class == "chromium"@ {
        (Color::Rgb(66, 133, 244), Color::Black)
    } else if class == "brave-browser"@ {
        (Color::Rgb(250, 72, 41), Color::White)
    } else if class == "vivaldi"@ || class == "opera"@ {
        (Color::Rgb(235, 90, 70), Color::White)
    } else if class == "edge"@ {
        (Color::Rgb(0, 120, 215), Color::White)
    } else if class == "helium"@ {
        (Color::Rgb(0, 184, 169), Color::White)
    } else if class == "kitty"@ {
        (Color::Rgb(103, 117, 140), Color::White)
    } else if class == "alacritty"@ || class == "gnome-terminal"@ || class == "konsole"@ || class == "xterm"@ {
        (Color::Rgb(46, 52, 64), Color::White)
    } else if class == "neovide"@ {
        (Color::Rgb(0, 107, 84), Color::White)
    } else if class == "code"@ || class == "code-oss"@ {
        (Color::Rgb(27, 127, 243), Color::White)
    } else if class == "sublime_text"@ {
        (Color::Rgb(255, 93, 0), Color::White)
    } else if class == "zathura"@ || class == "evince"@ || class == "okular"@ || class == "qpdfview"@ || class == "mupdf"@ {
        (Color::Rgb(198, 40, 40), Color::White)
    } else if class == "qview"@ || class == "feh"@ || class == "nomacs"@ || class == "gwenview"@ || class == "eog"@ || class == "sxiv"@ {
        (Color::Rgb(156, 39, 176), Color::White)
    } else if class == "mpv"@ || class == "vlc"@ || class == "smplayer"@ || class == "celluloid"@ {
        (Color::Rgb(237, 101, 46), Color::White)
    } else if class == "spotify"@ || class == "rhythmbox"@ || class == "audacious"@ {
        (Color::Rgb(29, 185, 84), Color::White)
    } else if class == "gimp"@ || class == "krita"@ {
        (Color::Rgb(103, 72, 145), Color::White)
    } else if class == "aseprite"@ {
        (Color::Rgb(255, 255, 255), Color::Black)
    } else if class == "inkscape"@ {
        (Color::Rgb(0, 116, 178), Color::White)
    } else if class == "blender"@ {
        (Color::Rgb(245, 129, 49), Color::White)
    } else if class == "obs"@ {
        (Color::Rgb(146, 52, 220), Color::White)
    } else if class == "discord"@ {
        (Color::Rgb(88, 101, 242), Color::White)
    } else if class == "telegramdesktop"@ || class == "telegram"@ {
        (Color::Rgb(39, 156, 204), Color::White)
    } else if class == "slack"@ {
        (Color::Rgb(254, 0, 84), Color::White)
    } else if class == "signal"@ {
        (Color::Rgb(83, 189, 238), Color::White)
    } else if class == "thunderbird"@ || class == "geary"@ {
        (Color::Rgb(0, 112, 193), Color::White)
    } else if class == "thunar"@ || class == "dolphin"@ || class == "nautilus"@ || class == "pcmanfm"@ {
        (Color::Rgb(41, 128, 185), Color::White)
    } else if class == "nvtop"@ {
        (Color::Rgb(0, 173, 181), Color::White)
    } else if class == "pavucontrol"@ {
        (Color::Rgb(233, 84, 32), Color::White)
    } else if class == "networkmanager_dmenu"@ {
        (Color::Rgb(0, 184, 169), Color::White)
    } else if class == "libreoffice-writer"@ || class == "onlyoffice-desktopeditors"@ {
        (Color::Rgb(18, 52, 86), Color::White)
    } else if class == "libreoffice-calc"@ {
        (Color::Rgb(43, 87, 135), Color::White)
    } else if class == "libreoffice-impress"@ {
        (Color::Rgb(233, 63, 51), Color::White)
    } else if class == "postman"@ {
        (Color::Rgb(255, 89, 94), Color::White)
    } else if class == "insomnia"@ {
        (Color::Rgb(148, 66, 156), Color::White)
    } else if class == "gitkraken"@ {
        (Color::Rgb(64, 84, 178), Color::White)
    } else if class == "figma-linux"@ {
        (Color::Rgb(0, 112, 243), Color::White)
    } else if class == "wine"@ || class == "winecfg"@ {
        (Color::Rgb(143, 31, 35), Color::White)
    } else if class == "steam"@ {
        (Color::Rgb(0, 47, 71), Color::White)
    } else if class == "lutris"@ {
        (Color::Rgb(201, 32, 44), Color::White)
    } else if class == "heroic"@ {
        (Color::Rgb(162, 49, 162), Color::White)
    } else if class == "minecraft"@ {
        (Color::Rgb(46, 125, 50), Color::White)
    } else {
        (Color::Gray, Color::White)
    }
}

/// The background and text colour of a window with this class and title,
/// both in lower case.
pub open spec fn brand_colors(class: Seq<char>, title: Seq<char>) -> (Color, Color) {
    match title_colors(title) {
        Some(colors) => colors,
        None => class_colors(class),
    }
}

fn icon_of_title(title: &str) -> (r: Option<&'static str>)
    ensures
        match r {
            Some(icon) => title_icon(title@) == Some(icon@),
            None => title_icon(title@) is None,
        },
{
    if str_starts_with(title, "nvim") || str_contains(title, "neovim") {
        Some("\u{e62b}")
    } else if str_starts_with(title, "vim") {
        Some("\u{e7c5}")
    } else if str_starts_with(title, "emacs") {
        Some("\u{f0379}")
    } else if str_starts_with(title, "nano") {
        Some("\u{e7c5}")
    } else if str_starts_with(title, "htop") || str_starts_with(title, "btop") {
        Some("\u{f051a}")
    } else if str_starts_with(title, "yazi") {
        Some("\u{f01e5}")
    } else if str_starts_with(title, "ranger") || str_starts_with(title, "lf") {
        Some("\u{f024b}")
    } else if str_starts_with(title, "git") {
        Some("\u{f02a2}")
    } else if str_starts_with(title, "man") {
        Some("\u{f0379}")
    } else if str_starts_with(title, "ssh") {
        Some("\u{f08c0}")
    } else if str_starts_with(title, "cmus") || str_starts_with(title, "ncmpcpp") {
        Some("\u{f04c7}")
    } else {
        None
    }
}

fn icon_of_class(class: &str) -> (r: &'static str)
    ensures
        r@ == class_icon(class@),
{
    if str_eq(class, "firefox") || str_eq(class, "firefox-developer-edition") {
        "\u{f0239}"
    } else if str_eq(class, "google-chrome") || str_eq(class, "chrome") {
        "\u{f02af}"
    } else if str_eq(class, "chromium") {
        "\u{f02af}"
    } else if str_eq(class, "brave-browser") {
        "\u{f059f}"
    } else if str_eq(class, "librewolf") {
        "\u{f0239}"
    } else if str_eq(class, "vivaldi") {
        "\u{f059f}"
    } else if str_eq(class, "opera") {
        "\u{f059f}"
    } else if str_eq(class, "edge") {
        "\u{f01e9}"
    } else if str_eq(class, "helium") {
        "\u{f059f}"
    } else if str_eq(class, "kitty") {
        "\u{f011b}"
    } else if str_eq(class, "alacritty") {
        "\u{f018d}"
    } else if str_eq(class, "gnome-terminal") {
        "\u{f018d}"
    } else if str_eq(class, "konsole") {
        "\u{f018d}"
    } else if str_eq(class, "xterm") {
        "\u{f018d}"
    } else if str_eq(class, "neovide") {
        "\u{e62b}"
    } else if str_eq(class, "code") || str_eq(class, "code-oss") {
        "\u{f0a1e}"
    } else if str_eq(class, "sublime_text") {
        "\u{f016a}"
    } else if str_eq(class, "zathura") {
        "\u{f0226}"
    } else if str_eq(class, "evince") {
        "\u{f0226}"
    } else if str_eq(class, "okular") {
        "\u{f0226}"
    } else if str_eq(class, "qpdfview") {
        "\u{f0226}"
    } else if str_eq(class, "mupdf") {
        "\u{f0226}"
    } else if str_eq(class, "qview") {
        "\u{f02e9}"
    } else if str_eq(class, "feh") {
        "\u{f02e9}"
    } else if str_eq(class, "nomacs") {
        "\u{f02e9}"
    } else if str_eq(class, "gwenview") {
        "\u{f02e9}"
    } else if str_eq(class, "eog") {
        "\u{f02e9}"
    } else if str_eq(class, "sxiv") {
        "\u{f02e9}"
    } else if str_eq(class, "mpv") {
        "\u{f0439}"
    } else if str_eq(class, "vlc") {
        "\u{f057c}"
    } else if str_eq(class, "smplayer") {
        "\u{f0439}"
    } else if str_eq(class, "celluloid") {
        "\u{f0439}"
    } else if str_eq(class, "spotify") {
        "\u{f04c7}"
    } else if str_eq(class, "rhythmbox") {
        "\u{f04c7}"
    } else if str_eq(class, "audacious") {
        "\u{f04c7}"
    } else if str_eq(class, "cmus") {
        "\u{f04c7}"
    } else if str_eq(class, "ncmpcpp") {
        "\u{f04c7}"
    } else if str_eq(class, "gimp") {
        "\u{f03d8}"
    } else if str_eq(class, "aseprite") {
        "\u{f01a7}"
    } else if str_eq(class, "inkscape") {
        "\u{f076b}"
    } else if str_eq(class, "blender") {
        "\u{f00ab}"
    } else if str_eq(class, "krita") {
        "\u{f03d8}"
    } else if str_eq(class, "obs") {
        "\u{f0540}"
    } else if str_eq(class, "discord") {
        "\u{f066f}"
    } else if str_eq(class, "telegramdesktop") || str_eq(class, "telegram") {
        "\u{f0228}"
    } else if str_eq(class, "slack") {
        "\u{f04b1}"
    } else if str_eq(class, "signal") {
        "\u{f0366}"
    } else if str_eq(class, "thunderbird") {
        "\u{f01f0}"
    } else if str_eq(class, "geary") {
        "\u{f01f0}"
    } else if str_eq(class, "thunar") {
        "\u{f024b}"
    } else if str_eq(class, "dolphin") {
        "\u{f024b}"
    } else if str_eq(class, "nautilus") {
        "\u{f024b}"
    } else if str_eq(class, "pcmanfm") {
        "\u{f024b}"
    } else if str_eq(class, "nvtop") {
        "\u{f035b}"
    } else if str_eq(class, "pavucontrol") {
        "\u{f075a}"
    } else if str_eq(class, "networkmanager_dmenu") {
        "\u{f0928}"
    } else if str_eq(class, "libreoffice-writer") {
        "\u{f03ea}"
    } else if str_eq(class, "libreoffice-calc") {
        "\u{f021b}"
    } else if str_eq(class, "libreoffice-impress") {
        "\u{f03a7}"
    } else if str_eq(class, "onlyoffice-desktopeditors") {
        "\u{f03ea}"
    } else if str_eq(class, "postman") {
        "\u{f0bae}"
    } else if str_eq(class, "insomnia") {
        "\u{f0626}"
    } else if str_eq(class, "gitkraken") {
        "\u{f02a2}"
    } else if str_eq(class, "figma-linux") {
        "\u{f0fed}"
    } else if str_eq(class, "wine") || str_eq(class, "winecfg") {
        "\u{f0876}"
    } else if str_eq(class, "steam") {
        "\u{f04d3}"
    } else if str_eq(class, "lutris") {
        "\u{f0bad}"
    } else if str_eq(class, "heroic") {
        "\u{f0511}"
    } else if str_eq(class, "minecraft") {
        "\u{f0373}"
    } else {
        "\u{f035c}"
    }
}

fn colors_of_title(title: &str) -> (r: Option<(Color, Color)>)
    ensures
        r == title_colors(title@),
{
    if str_starts_with(title, "nvim") || str_contains(title, "neovim") {
        Some((Color::Rgb(0, 107, 84), Color::White))
    } else if str_starts_with(title, "vim") {
        Some((Color::Rgb(19, 134, 71), Color::White))
    } else if str_starts_with(title, "emacs") {
        Some((Color::Rgb(146, 35, 127), Color::White))
    } else if str_starts_with(title, "htop") || str_starts_with(title, "btop") {
        Some((Color::Rgb(255, 152, 0), Color::Black))
    } else if str_starts_with(title, "yazi") {
        Some((Color::Rgb(255, 200, 87), Color::Black))
    } else if str_starts_with(title, "ranger") || str_starts_with(title, "lf") {
        Some((Color::Rgb(41, 128, 185), Color::White))
    } else if str_starts_with(title, "git") {
        Some((Color::Rgb(240, 80, 50), Color::White))
    } else if str_starts_with(title, "ssh") {
        Some((Color::Rgb(0, 100, 200), Color::White))
    } else if str_starts_with(title, "cmus") || str_starts_with(title, "ncmpcpp") {
        Some((Color::Rgb(29, 185, 84), Color::White))
    } else {
        None
    }
}

fn colors_of_class(class: &str) -> (r: (Color, Color))
    ensures
        r == class_colors(class@),
{
    if str_eq(class, "firefox") || str_eq(class, "firefox-developer-edition") || str_eq(class, "librewolf") {
        (Color::Rgb(255, 119, 0), Color::Black)
    } else if str_eq(class, "google-chrome") || str_eq(class, "chrome") || str_eq(class, "chromium") {
        (Color::Rgb(66, 133, 244), Color::Black)
    } else if str_eq(class, "brave-browser") {
        (Color::Rgb(250, 72, 41), Color::White)
    } else if str_eq(class, "vivaldi") || str_eq(class, "opera") {
        (Color::Rgb(235, 90, 70), Color::White)
    } else if str_eq(class, "edge") {
        (Color::Rgb(0, 120, 215), Color::White)
    } else if str_eq(class, "helium") {
        (Color::Rgb(0, 184, 169), Color::White)
    } else if str_eq(class, "kitty") {
        (Color::Rgb(103, 117, 140), Color::White)
    } else if str_eq(class, "alacritty") || str_eq(class, "gnome-terminal") || str_eq(class, "konsole") || str_eq(class, "xterm") {
        (Color::Rgb(46, 52, 64), Color::White)
    } else if str_eq(class, "neovide") {
        (Color::Rgb(0, 107, 84), Color::White)
    } else if str_eq(class, "code") || str_eq(class, "code-oss") {
        (Color::Rgb(27, 127, 243), Color::White)
    } else if str_eq(class, "sublime_text") {
        (Color::Rgb(255, 93, 0), Color::White)
    } else if str_eq(class, "zathura") || str_eq(class, "evince") || str_eq(class, "okular") || str_eq(class, "qpdfview") || str_eq(class, "mupdf") {
        (Color::Rgb(198, 40, 40), Color::White)
    } else if str_eq(class, "qview") || str_eq(class, "feh") || str_eq(class, "nomacs") || str_eq(class, "gwenview") || str_eq(class, "eog") || str_eq(class, "sxiv") {
        (Color::Rgb(156, 39, 176), Color::White)
    } else if str_eq(class, "mpv") || str_eq(class, "vlc") || str_eq(class, "smplayer") || str_eq(class, "celluloid") {
        (Color::Rgb(237, 101, 46), Color::White)
    } else if str_eq(class, "spotify") || str_eq(class, "rhythmbox") || str_eq(class, "audacious") {
        (Color::Rgb(29, 185, 84), Color::White)
    } else if str_eq(class, "gimp") || str_eq(class, "krita") {
        (Color::Rgb(103, 72, 145), Color::White)
    } else if str_eq(class, "aseprite") {
        (Color::Rgb(255, 255, 255), Color::Black)
    } else if str_eq(class, "inkscape") {
        (Color::Rgb(0, 116, 178), Color::White)
    } else if str_eq(class, "blender") {
        (Color::Rgb(245, 129, 49), Color::White)
    } else if str_eq(class, "obs") {
        (Color::Rgb(146, 52, 220), Color::White)
    } else if str_eq(class, "discord") {
        (Color::Rgb(88, 101, 242), Color::White)
    } else if str_eq(class, "telegramdesktop") || str_eq(class, "telegram") {
        (Color::Rgb(39, 156, 204), Color::White)
    } else if str_eq(class, "slack") {
        (Color::Rgb(254, 0, 84), Color::White)
    } else if str_eq(class, "signal") {
        (Color::Rgb(83, 189, 238), Color::White)
    } else if str_eq(class, "thunderbird") || str_eq(class, "geary") {
        (Color::Rgb(0, 112, 193), Color::White)
    } else if str_eq(class, "thunar") || str_eq(class, "dolphin") || str_eq(class, "nautilus") || str_eq(class, "pcmanfm") {
        (Color::Rgb(41, 128, 185), Color::White)
    } else if str_eq(class, "nvtop") {
        (Color::Rgb(0, 173, 181), Color::White)
    } else if str_eq(class, "pavucontrol") {
        (Color::Rgb(233, 84, 32), Color::White)
    } else if str_eq(class, "networkmanager_dmenu") {
        (Color::Rgb(0, 184, 169), Color::White)
    } else if str_eq(class, "libreoffice-writer") || str_eq(class, "onlyoffice-desktopeditors") {
        (Color::Rgb(18, 52, 86), Color::White)
    } else if str_eq(class, "libreoffice-calc") {
        (Color::Rgb(43, 87, 135), Color::White)
    } else if str_eq(class, "libreoffice-impress") {
        (Color::Rgb(233, 63, 51), Color::White)
    } else if str_eq(class, "postman") {
        (Color::Rgb(255, 89, 94), Color::White)
    } else if str_eq(class, "insomnia") {
        (Color::Rgb(148, 66, 156), Color::White)
    } else if str_eq(class, "gitkraken") {
        (Color::Rgb(64, 84, 178), Color::White)
    } else if str_eq(class, "figma-linux") {
        (Color::Rgb(0, 112, 243), Color::White)
    } else if str_eq(class, "wine") || str_eq(class, "winecfg") {
        (Color::Rgb(143, 31, 35), Color::White)
    } else if str_eq(class, "steam") {
        (Color::Rgb(0, 47, 71), Color::White)
    } else if str_eq(class, "lutris") {
        (Color::Rgb(201, 32, 44), Color::White)
    } else if str_eq(class, "heroic") {
        (Color::Rgb(162, 49, 162), Color::White)
    } else if str_eq(class, "minecraft") {
        (Color::Rgb(46, 125, 50), Color::White)
    } else {
        (Color::Gray, Color::White)
    }
}

/// The icon of a window whose class and title are given in lower case.
pub fn icon_for(class: &str, title: &str) -> (r: String)
    ensures
        r@ == app_icon(class@, title@),
{
    match icon_of_title(title) {
        Some(icon) => String::from_str(icon),
        None => String::from_str(icon_of_class(class)),
    }
}

/// The colours of a window whose class and title are given in lower case.
pub fn colors_for(class: &str, title: &str) -> (r: (Color, Color))
    ensures
        r == brand_colors(class@, title@),
{
    match colors_of_title(title) {
        Some(colors) => colors,
        None => colors_of_class(class),
    }
}

/// The icon of a window, whatever the case of its class and title.
pub fn get_app_icon(class: &str, title: &str) -> (r: String)
    ensures
        r@ == app_icon(lowercase(class@), lowercase(title@)),
{
    let class_lower = to_lowercase(class);
    let title_lower = to_lowercase(title);
    icon_for(class_lower.as_str(), title_lower.as_str())
}

/// The background and text colour of a window, whatever the case of its
/// class and title.
pub fn get_brand_color(class: &str, title: &str) -> (r: (Color, Color))
    ensures
        r == brand_colors(lowercase(class@), lowercase(title@)),
{
    let class_lower = to_lowercase(class);
    let title_lower = to_lowercase(title);
    colors_for(class_lower.as_str(), title_lower.as_str())
}

} // verus!
