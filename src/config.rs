//! The configuration: the programs to run and the key bindings of the modes.
//! Reading it from a file is left to the caller.
use vstd::prelude::*;

verus! {

/// The whole configuration.
#[derive(Debug)]
pub struct Config {
    pub rofi: Rofi,
    pub cliphist: ClipHist,
    pub clipboard: Clipboard,
    pub paste_enabled: PasteEnabled,
    pub image_mode_config: ModeConfig,
    pub text_mode_config: ModeConfig,
    pub delete_mode_config: ModeConfig,
    pub delete_previous_config: ModeConfig,
    pub delete_next_config: ModeConfig,
}

/// The chooser's program.
#[derive(Debug)]
pub struct Rofi {
    pub path: String,
}

/// The history store's program.
#[derive(Debug)]
pub struct ClipHist {
    pub path: String,
}

/// The clipboard setter's program.
#[derive(Debug)]
pub struct Clipboard {
    pub path: String,
}

/// Whether pasting after a copy is enabled.
#[derive(Debug)]
pub struct PasteEnabled {
    pub flag: bool,
}

/// The title, key chord and description of one binding.
#[derive(Debug)]
pub struct ModeConfig {
    pub title: String,
    pub shortcut: String,
    pub description: String,
}

/// Whether `m` has these title, shortcut and description.
pub open spec fn mode_config_is(
    m: ModeConfig,
    title: Seq<char>,
    shortcut: Seq<char>,
    description: Seq<char>,
) -> bool {
    m.title@ == title && m.shortcut@ == shortcut && m.description@ == description
}

fn mode_config(title: &str, shortcut: &str, description: &str) -> (r: ModeConfig)
    ensures
        mode_config_is(r, title@, shortcut@, description@),
{
    ModeConfig {
        title: title.to_owned(),
        shortcut: shortcut.to_owned(),
        description: description.to_owned(),
    }
}

/// The binding that switches to the images.
pub fn default_image_mode_config() -> (r: ModeConfig)
    ensures
        mode_config_is(r, "Images"@, "Alt+i"@, "Switch to images"@),
{
    mode_config("Images", "Alt+i", "Switch to images")
}

/// The binding that switches to the texts.
pub fn default_text_mode_config() -> (r: ModeConfig)
    ensures
        mode_config_is(r, "Texts"@, "Alt+t"@, "Switch to text"@),
{
    mode_config("Texts", "Alt+t", "Switch to text")
}

/// The binding that deletes the highlighted entry.
pub fn default_delete_mode_config() -> (r: ModeConfig)
    ensures
        mode_config_is(r, "Delete"@, "Alt+d"@, "Delete entry"@),
{
    mode_config("Delete", "Alt+d", "Delete entry")
}

/// The binding that deletes the entries before the highlighted one.
pub fn default_delete_previous_config() -> (r: ModeConfig)
    ensures
        mode_config_is(
            r,
            "Delete previous"@,
            "Alt+p"@,
            "Delete all entries before the selected one"@,
        ),
{
    mode_config("Delete previous", "Alt+p", "Delete all entries before the selected one")
}

/// The binding that deletes the entries after the highlighted one.
pub fn default_delete_next_config() -> (r: ModeConfig)
    ensures
        mode_config_is(r, "Delete next"@, "Alt+n"@, "Delete all entries after the selected one"@),
{
    mode_config("Delete next", "Alt+n", "Delete all entries after the selected one")
}

impl Default for Rofi {
    fn default() -> (r: Self)
        ensures
            r.path@ == "rofi"@,
    {
        Rofi { path: "rofi".to_owned() }
    }
}

impl Default for ClipHist {
    fn default() -> (r: Self)
        ensures
            r.path@ == "cliphist"@,
    {
        ClipHist { path: "cliphist".to_owned() }
    }
}

impl Default for Clipboard {
    fn default() -> (r: Self)
        ensures
            r.path@ == "wl-copy"@,
    {
        Clipboard { path: "wl-copy".to_owned() }
    }
}

impl Default for PasteEnabled {
    fn default() -> (r: Self)
        ensures
            !r.flag,
    {
        PasteEnabled { flag: false }
    }
}

impl Default for Config {
    fn default() -> (r: Self)
        ensures
            r.rofi.path@ == "rofi"@,
            r.cliphist.path@ == "cliphist"@,
            r.clipboard.path@ == "wl-copy"@,
            !r.paste_enabled.flag,
            mode_config_is(r.image_mode_config, "Images"@, "Alt+i"@, "Switch to images"@),
            mode_config_is(r.text_mode_config, "Texts"@, "Alt+t"@, "Switch to text"@),
            mode_config_is(r.delete_mode_config, "Delete"@, "Alt+d"@, "Delete entry"@),
            mode_config_is(
                r.delete_previous_config,
                "Delete previous"@,
                "Alt+p"@,
                "Delete all entries before the selected one"@,
            ),
            mode_config_is(
                r.delete_next_config,
                "Delete next"@,
                "Alt+n"@,
                "Delete all entries after the selected one"@,
            ),
    {
        Config {
            rofi: Rofi::default(),
            cliphist: ClipHist::default(),
            clipboard: Clipboard::default(),
            paste_enabled: PasteEnabled::default(),
            image_mode_config: default_image_mode_config(),
            text_mode_config: default_text_mode_config(),
            delete_mode_config: default_delete_mode_config(),
            delete_previous_config: default_delete_previous_config(),
            delete_next_config: default_delete_next_config(),
        }
    }
}

} // verus!
