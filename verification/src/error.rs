//! The daemon's error type.

use vstd::prelude::*;
use crate::strings::{concat2, concat3, owned};

verus! {

/// Everything that can go wrong in the daemon, each with the text that
/// describes the failure.
#[derive(Debug, PartialEq, Eq)]
pub enum DeckError {
    /// The configuration breaks a constraint.
    Config(String),
    /// No configuration file at the given path.
    ConfigNotFound(String),
    /// The configuration file is not valid TOML, or not of the expected shape.
    TomlParse(String),
    /// The device could not be opened.
    Device(String),
    /// No supported device is attached.
    NoDevice,
    /// A tile could not be drawn.
    Render(String),
    /// A font could not be loaded.
    Font(String),
    /// An icon could not be opened or decoded.
    Icon { path: String, message: String },
    /// An action is not supported.
    Action(String),
    /// An HTTP action failed in transport.
    Http(String),
    /// A shell command ended with a non-zero status.
    Shell { command: String, message: String },
    /// A page id names no page.
    PageNotFound(String),
    /// Reading or writing failed.
    Io(String),
    /// The HID layer reported an error.
    Hid(String),
    /// The file watcher could not be set up.
    Watcher(String),
}

/// An error as a mathematical value: the variant and its texts.
pub enum ErrorView {
    Config(Seq<char>),
    ConfigNotFound(Seq<char>),
    TomlParse(Seq<char>),
    Device(Seq<char>),
    NoDevice,
    Render(Seq<char>),
    Font(Seq<char>),
    Icon { path: Seq<char>, message: Seq<char> },
    Action(Seq<char>),
    Http(Seq<char>),
    Shell { command: Seq<char>, message: Seq<char> },
    PageNotFound(Seq<char>),
    Io(Seq<char>),
    Hid(Seq<char>),
    Watcher(Seq<char>),
}

impl View for DeckError {
    type V = ErrorView;

    open spec fn view(&self) -> ErrorView {
        match self {
            DeckError::Config(m) => ErrorView::Config(m@),
            DeckError::ConfigNotFound(p) => ErrorView::ConfigNotFound(p@),
            DeckError::TomlParse(m) => ErrorView::TomlParse(m@),
            DeckError::Device(m) => ErrorView::Device(m@),
            DeckError::NoDevice => ErrorView::NoDevice,
            DeckError::Render(m) => ErrorView::Render(m@),
            DeckError::Font(m) => ErrorView::Font(m@),
            DeckError::Icon { path, message } => ErrorView::Icon { path: path@, message: message@ },
            DeckError::Action(m) => ErrorView::Action(m@),
            DeckError::Http(m) => ErrorView::Http(m@),
            DeckError::Shell { command, message } => ErrorView::Shell {
                command: command@,
                message: message@,
            },
            DeckError::PageNotFound(p) => ErrorView::PageNotFound(p@),
            DeckError::Io(m) => ErrorView::Io(m@),
            DeckError::Hid(m) => ErrorView::Hid(m@),
            DeckError::Watcher(m) => ErrorView::Watcher(m@),
        }
    }
}

impl Clone for DeckError {
    fn clone(&self) -> (copy: Self)
        ensures
            copy == *self,
    {
        match self {
            DeckError::Config(m) => DeckError::Config(m.clone()),
            DeckError::ConfigNotFound(p) => DeckError::ConfigNotFound(p.clone()),
            DeckError::TomlParse(m) => DeckError::TomlParse(m.clone()),
            DeckError::Device(m) => DeckError::Device(m.clone()),
            DeckError::NoDevice => DeckError::NoDevice,
            DeckError::Render(m) => DeckError::Render(m.clone()),
            DeckError::Font(m) => DeckError::Font(m.clone()),
            DeckError::Icon { path, message } => DeckError::Icon {
                path: path.clone(),
                message: message.clone(),
            },
            DeckError::Action(m) => DeckError::Action(m.clone()),
            DeckError::Http(m) => DeckError::Http(m.clone()),
            DeckError::Shell { command, message } => DeckError::Shell {
                command: command.clone(),
                message: message.clone(),
            },
            DeckError::PageNotFound(p) => DeckError::PageNotFound(p.clone()),
            DeckError::Io(m) => DeckError::Io(m.clone()),
            DeckError::Hid(m) => DeckError::Hid(m.clone()),
            DeckError::Watcher(m) => DeckError::Watcher(m.clone()),
        }
    }
}

impl DeckError {
    /// The text of `message`, as a specification.
    pub open spec fn spec_message(&self) -> Seq<char> {
        match self {
            DeckError::Config(m) => "config error: "@ + m@,
            DeckError::ConfigNotFound(p) => "config file not found: "@ + p@,
            DeckError::TomlParse(m) => "TOML parse error: "@ + m@,
            DeckError::Device(m) => "device error: "@ + m@,
            DeckError::NoDevice => "no Stream Deck found"@,
            DeckError::Render(m) => "render error: "@ + m@,
            DeckError::Font(m) => "font error: "@ + m@,
            DeckError::Icon { path, message } => "icon error: "@ + path@ + ": "@ + message@,
            DeckError::Action(m) => "action error: "@ + m@,
            DeckError::Http(m) => "HTTP action failed: "@ + m@,
            DeckError::Shell { command, message } => "shell command failed: "@ + command@ + ": "@
                + message@,
            DeckError::PageNotFound(p) => "page not found: "@ + p@,
            DeckError::Io(m) => "IO error: "@ + m@,
            DeckError::Hid(m) => "HID error: "@ + m@,
            DeckError::Watcher(m) => "watcher error: "@ + m@,
        }
    }

    /// A one-line description of the error for a person to read.
    pub fn message(&self) -> (text: String)
        ensures
            text@ == self.spec_message(),
    {
        match self {
            DeckError::Config(m) => concat2("config error: ", m.as_str()),
            DeckError::ConfigNotFound(p) => concat2("config file not found: ", p.as_str()),
            DeckError::TomlParse(m) => concat2("TOML parse error: ", m.as_str()),
            DeckError::Device(m) => concat2("device error: ", m.as_str()),
            DeckError::NoDevice => owned("no Stream Deck found"),
            DeckError::Render(m) => concat2("render error: ", m.as_str()),
            DeckError::Font(m) => concat2("font error: ", m.as_str()),
            DeckError::Icon { path, message } => {
                let head = concat3("icon error: ", path.as_str(), ": ");
                concat2(head.as_str(), message.as_str())
            },
            DeckError::Action(m) => concat2("action error: ", m.as_str()),
            DeckError::Http(m) => concat2("HTTP action failed: ", m.as_str()),
            DeckError::Shell { command, message } => {
                let head = concat3("shell command failed: ", command.as_str(), ": ");
                concat2(head.as_str(), message.as_str())
            },
            DeckError::PageNotFound(p) => concat2("page not found: ", p.as_str()),
            DeckError::Io(m) => concat2("IO error: ", m.as_str()),
            DeckError::Hid(m) => concat2("HID error: ", m.as_str()),
            DeckError::Watcher(m) => concat2("watcher error: ", m.as_str()),
        }
    }
}

} // verus!
