//! The configuration of an embedded surface: one structure with a named
//! field for every setting, its defaults, and the choice between the two
//! possible sources of content.

use vstd::prelude::*;

verus! {

/// A colour with alpha, eight bits a channel.
#[derive(Clone, Copy, Debug, PartialEq, Eq, Structural)]
pub struct Rgba {
    pub red: u8,
    pub green: u8,
    pub blue: u8,
    pub alpha: u8,
}

/// The settings of a surface. They are fixed before the surface is
/// attached and read once, when it is.
#[derive(Debug)]
pub struct SurfaceConfig {
    /// Cover the whole viewport instead of the control's rectangle.
    pub full_window_size: bool,
    /// The address to load.
    pub url: String,
    /// Markup to show instead of an address.
    pub html: String,
    pub transparent: bool,
    pub background_color: Rgba,
    pub devtools: bool,
    pub headers: Vec<(String, String)>,
    pub user_agent: String,
    pub zoom_hotkeys: bool,
    pub clipboard: bool,
    pub incognito: bool,
    pub focused_when_created: bool,
    /// Hand the focus back to the host on every frame, so that the host
    /// keeps receiving input.
    pub allow_interactions_without_focus: bool,
    /// Have web content report pointer and keyboard activity.
    pub forward_input_events: bool,
}

/// Where the content of a surface comes from.
#[derive(Debug)]
pub enum ContentSource {
    Url(String),
    Markup(String),
}

/// The address loaded where nothing else is configured.
pub open spec fn default_url() -> Seq<char> {
    "https://github.com/doceazedo/godot_wry"@
}

/// Whether both an address and markup are configured. Only one can be
/// shown; the conflict is worth a warning.
pub open spec fn sources_conflict(url: Seq<char>, html: Seq<char>) -> bool {
    url.len() > 0 && html.len() > 0
}

/// Whether the markup is the source: it is whenever there is any, also
/// where an address is configured beside it.
pub open spec fn markup_wins(url: Seq<char>, html: Seq<char>) -> bool {
    html.len() > 0
}

impl ContentSource {
    /// The text of the source.
    pub open spec fn text(self) -> Seq<char> {
        match self {
            ContentSource::Url(url) => url@,
            ContentSource::Markup(html) => html@,
        }
    }
}

impl SurfaceConfig {
    /// Whether the settings name two sources of content.
    pub fn has_conflict(&self) -> (conflict: bool)
        ensures
            conflict == sources_conflict(self.url@, self.html@),
    {
        !self.url.as_str().is_empty() && !self.html.as_str().is_empty()
    }

    /// The source of content: the markup if there is any, else the
    /// address.
    pub fn content_source(&self) -> (source: ContentSource)
        ensures
            markup_wins(self.url@, self.html@) ==> source is Markup && source.text() == self.html@,
            !markup_wins(self.url@, self.html@) ==> source is Url && source.text() == self.url@,
    {
        if self.html.as_str().is_empty() {
            ContentSource::Url(self.url.clone())
        } else {
            ContentSource::Markup(self.html.clone())
        }
    }
}

impl Default for SurfaceConfig {
    fn default() -> (config: SurfaceConfig)
        ensures
            config.full_window_size,
            config.url@ == default_url(),
            config.html@.len() == 0,
            !config.transparent,
            config.background_color == (Rgba { red: 255, green: 255, blue: 255, alpha: 255 }),
            config.devtools,
            config.headers@.len() == 0,
            config.user_agent@.len() == 0,
            !config.zoom_hotkeys,
            config.clipboard,
            !config.incognito,
            config.focused_when_created,
            config.allow_interactions_without_focus,
            config.forward_input_events,
            !sources_conflict(config.url@, config.html@),
    {
        SurfaceConfig {
            full_window_size: true,
            url: "https://github.com/doceazedo/godot_wry".to_owned(),
            html: String::new(),
            transparent: false,
            background_color: Rgba { red: 255, green: 255, blue: 255, alpha: 255 },
            devtools: true,
            headers: Vec::new(),
            user_agent: String::new(),
            zoom_hotkeys: false,
            clipboard: true,
            incognito: false,
            focused_when_created: true,
            allow_interactions_without_focus: true,
            forward_input_events: true,
        }
    }
}

} // verus!
