use vstd::prelude::*;

use crate::paths::{
    display_path, expanded_path, extension_of, file_name_of, path_extension, path_file_name,
    path_to_string, str_to_path,
};

verus! {

/// The file formats an EQ can be saved in.
#[derive(Debug, Clone, Copy, PartialEq, Eq, Structural)]
pub enum SaveFormat {
    Apo,
    PwParamEq,
}

/// The state of the save/load window: the path being edited, the file that remembers the
/// last saved path, the outcome of the last save or load, and a loaded config (of type
/// `C`) not yet handed to the EQ.
pub struct SaveLoadWindowState<C> {
    pub show_window: bool,
    conf_to_load: Option<C>,
    path: String,
    last_saved_path: String,
    error: Option<String>,
}

/// The model of a [`SaveLoadWindowState`].
pub struct SaveLoadView<C> {
    pub show_window: bool,
    pub conf_to_load: Option<C>,
    pub path: Seq<char>,
    pub last_saved_path: Seq<char>,
    /// The message of the last failed save or load, until the next success or path edit.
    pub error: Option<Seq<char>>,
}

impl<C> View for SaveLoadWindowState<C> {
    type V = SaveLoadView<C>;

    closed spec fn view(&self) -> SaveLoadView<C> {
        SaveLoadView {
            show_window: self.show_window,
            conf_to_load: self.conf_to_load,
            path: self.path@,
            last_saved_path: self.last_saved_path@,
            error: match self.error {
                Some(e) => Some(e@),
                None => None,
            },
        }
    }
}

/// Whether the extension `ext` is `apo`, the only one that can be saved and loaded.
pub open spec fn is_apo(ext: Option<Seq<char>>) -> bool {
    ext == Some("apo"@)
}

/// The format a save writes for a file with extension `ext`: none without an extension,
/// APO for `apo`, the PipeWire filter-chain format for any other extension.
pub open spec fn format_of(ext: Option<Seq<char>>) -> Option<SaveFormat> {
    match ext {
        None => None,
        Some(e) => if e == "apo"@ {
            Some(SaveFormat::Apo)
        } else {
            Some(SaveFormat::PwParamEq)
        },
    }
}

/// Whether `path` has the extension `apo`.
pub open spec fn is_apo_path(path: Seq<char>) -> bool {
    is_apo(extension_of(path))
}

/// The format a save to `path` writes.
pub open spec fn format_for(path: Seq<char>) -> Option<SaveFormat> {
    format_of(extension_of(path))
}

/// The status line of the window.
pub open spec fn status_message(error: Option<Seq<char>>, valid_ext: bool, exists: bool) -> Seq<
    char,
> {
    match error {
        Some(e) => "File save error: "@ + e,
        None => if !valid_ext {
            "Invalid extension - must be .apo"@
        } else if exists {
            "File already exists"@
        } else {
            "File doesn't exist yet"@
        },
    }
}

/// The message kept for a config file that could not be parsed, with parser message `e`.
pub open spec fn load_error_message(e: Seq<char>) -> Seq<char> {
    "unable to parse apo file: "@ + e
}

/// The path a new window edits: the remembered last saved path when it names an existing
/// file, else the default path.
pub open spec fn start_path(
    default_path: Seq<char>,
    remembered: Option<Seq<char>>,
    remembered_exists: bool,
) -> Seq<char> {
    match remembered {
        Some(p) => if remembered_exists {
            p
        } else {
            default_path
        },
        None => default_path,
    }
}

impl<C> SaveLoadView<C> {
    /// The state after a save that failed with `outcome`'s message, or succeeded.
    pub open spec fn after_save(self, outcome: Option<Seq<char>>) -> SaveLoadView<C> {
        match outcome {
            Some(e) => SaveLoadView { error: Some(e), ..self },
            None => SaveLoadView { error: None, show_window: false, ..self },
        }
    }

    /// The state after a load that gave `outcome`.
    pub open spec fn after_load(self, outcome: Result<C, Seq<char>>) -> SaveLoadView<C> {
        match outcome {
            Ok(c) => SaveLoadView {
                conf_to_load: Some(c),
                error: None,
                show_window: false,
                ..self
            },
            Err(e) => SaveLoadView { error: Some(load_error_message(e)), ..self },
        }
    }

    /// The state after the loaded config was handed on.
    pub open spec fn after_take(self) -> SaveLoadView<C> {
        SaveLoadView { conf_to_load: None, ..self }
    }

    /// The state after the path field was edited to `input`, with home directory `home`.
    pub open spec fn after_edit(self, input: Seq<char>, home: Option<Seq<char>>) -> SaveLoadView<
        C,
    > {
        SaveLoadView { path: expanded_path(input, home), error: None, ..self }
    }
}

/// The view of an optional `&str`.
pub open spec fn opt_view(s: Option<&str>) -> Option<Seq<char>> {
    match s {
        Some(h) => Some(h@),
        None => None,
    }
}

/// The name a restored config gives the EQ: the file's name, or `config` without one.
pub open spec fn restored_name(file_name: Option<Seq<char>>) -> Seq<char> {
    match file_name {
        Some(n) => n,
        None => "config"@,
    }
}

/// The name a restored config gives the EQ.
pub fn restored_eq_name(file_name: Option<String>) -> (r: String)
    ensures
        r@ == restored_name(
            match file_name {
                Some(n) => Some(n@),
                None => None,
            },
        ),
{
    match file_name {
        Some(n) => n,
        None => String::from_str("config"),
    }
}

/// Whether the extension `ext` is `apo`.
pub fn is_apo_extension(ext: Option<&str>) -> (r: bool)
    ensures
        r == is_apo(opt_view(ext)),
{
    match ext {
        Some(e) => {
            let e = String::from_str(e);
            let apo = String::from_str("apo");
            e == apo
        },
        None => false,
    }
}

/// The format a save writes for a file with extension `ext`.
pub fn format_for_extension(ext: Option<&str>) -> (f: Option<SaveFormat>)
    ensures
        f == format_of(opt_view(ext)),
{
    match ext {
        Some(_) => if is_apo_extension(ext) {
            Some(SaveFormat::Apo)
        } else {
            Some(SaveFormat::PwParamEq)
        },
        None => None,
    }
}

/// The view of an optional `String`'s text, borrowed.
fn as_opt_str(s: &Option<String>) -> (r: Option<&str>)
    ensures
        opt_view(r) == match s {
            Some(t) => Some(t@),
            None => None::<Seq<char>>,
        },
{
    match s {
        Some(t) => Some(t.as_str()),
        None => None,
    }
}

impl<C> SaveLoadWindowState<C> {
    /// A hidden window editing the remembered last saved path when it names an existing
    /// file, else `default_path`; `last_saved_path` is the file that remembers it.
    pub fn new(
        default_path: String,
        last_saved_path: String,
        remembered: Option<String>,
        remembered_exists: bool,
    ) -> (s: SaveLoadWindowState<C>)
        ensures
            s@ == (SaveLoadView::<C> {
                show_window: false,
                conf_to_load: None,
                path: start_path(
                    default_path@,
                    match remembered {
                        Some(p) => Some(p@),
                        None => None,
                    },
                    remembered_exists,
                ),
                last_saved_path: last_saved_path@,
                error: None,
            }),
    {
        let path = match remembered {
            Some(p) => if remembered_exists {
                p
            } else {
                default_path
            },
            None => default_path,
        };
        SaveLoadWindowState {
            show_window: false,
            conf_to_load: None,
            path,
            last_saved_path,
            error: None,
        }
    }

    /// The path being edited.
    pub fn path(&self) -> (p: &String)
        ensures
            p@ == self@.path,
    {
        &self.path
    }

    /// The file that remembers the last saved path.
    pub fn last_saved_path(&self) -> (p: &String)
        ensures
            p@ == self@.last_saved_path,
    {
        &self.last_saved_path
    }

    /// The message of the last failed save or load, if it still stands.
    pub fn error(&self) -> (e: Option<&String>)
        ensures
            match e {
                Some(m) => self@.error == Some(m@),
                None => self@.error is None,
            },
    {
        match &self.error {
            Some(m) => Some(m),
            None => None,
        }
    }

    /// The path as shown for editing, with home directory `home`.
    pub fn display_path(&self, home: Option<&str>) -> (r: String)
        ensures
            r@ == display_path(self@.path, opt_view(home)),
    {
        path_to_string(self.path.as_str(), home)
    }

    /// The path field was edited to `input`: it becomes the path (a leading `~/` standing for
    /// `home`), and a shown error is cleared.
    pub fn set_path_input(&mut self, input: &str, home: Option<&str>)
        ensures
            final(self)@ == old(self)@.after_edit(input@, opt_view(home)),
    {
        self.path = str_to_path(input, home);
        self.error = None;
    }

    /// Whether the path has the extension `apo`.
    pub fn has_apo_extension(&self) -> (r: bool)
        ensures
            r == is_apo_path(self@.path),
    {
        let ext = path_extension(self.path.as_str());
        is_apo_extension(as_opt_str(&ext))
    }

    /// The format a save writes, if the path has an extension.
    pub fn save_format(&self) -> (f: Option<SaveFormat>)
        ensures
            f == format_for(self@.path),
    {
        let ext = path_extension(self.path.as_str());
        format_for_extension(as_opt_str(&ext))
    }

    /// Whether loading is offered: the path is an `.apo` file that exists (`exists`). The
    /// same test decides whether the last config is restored at startup.
    pub fn can_load(&self, exists: bool) -> (r: bool)
        ensures
            r == (is_apo_path(self@.path) && exists),
    {
        self.has_apo_extension() && exists
    }

    /// Records a save's outcome (`None` for success, else the error's message); a success
    /// closes the window. Returns whether the save succeeded, when the path is remembered.
    pub fn save_finished(&mut self, outcome: Option<String>) -> (saved: bool)
        ensures
            saved == outcome.is_none(),
            final(self)@ == old(self)@.after_save(
                match outcome {
                    Some(e) => Some(e@),
                    None => None,
                },
            ),
    {
        match outcome {
            Some(e) => {
                self.error = Some(e);
                false
            },
            None => {
                self.error = None;
                self.show_window = false;
                true
            },
        }
    }

    /// Records a load's outcome: a parsed config is kept for the EQ and closes the window; a
    /// parser error `e` is kept as "unable to parse apo file: e". Returns whether the load
    /// succeeded, when the path is remembered (the last saved or loaded config is restored at
    /// startup).
    pub fn load_finished(&mut self, outcome: Result<C, String>) -> (loaded: bool)
        ensures
            loaded == outcome.is_ok(),
            final(self)@ == old(self)@.after_load(
                match outcome {
                    Ok(c) => Ok(c),
                    Err(e) => Err(e@),
                },
            ),
    {
        match outcome {
            Ok(c) => {
                self.conf_to_load = Some(c);
                self.error = None;
                self.show_window = false;
                true
            },
            Err(e) => {
                let mut m = String::from_str("unable to parse apo file: ");
                m.append(e.as_str());
                self.error = Some(m);
                false
            },
        }
    }

    /// Hands on the loaded config, once.
    pub fn loaded_conf(&mut self) -> (c: Option<C>)
        ensures
            c == old(self)@.conf_to_load,
            final(self)@ == old(self)@.after_take(),
    {
        self.conf_to_load.take()
    }

    /// The file name of the path.
    pub fn path_filename(&self) -> (n: Option<String>)
        ensures
            match n {
                Some(s) => file_name_of(self@.path) == Some(s@),
                None => file_name_of(self@.path) is None,
            },
    {
        path_file_name(self.path.as_str())
    }

    /// The status line, given whether the path names an existing file.
    pub fn status_text(&self, exists: bool) -> (t: String)
        ensures
            t@ == status_message(self@.error, is_apo_path(self@.path), exists),
    {
        match &self.error {
            Some(e) => {
                let mut t = String::from_str("File save error: ");
                t.append(e.as_str());
                t
            },
            None => {
                if !self.has_apo_extension() {
                    String::from_str("Invalid extension - must be .apo")
                } else if exists {
                    String::from_str("File already exists")
                } else {
                    String::from_str("File doesn't exist yet")
                }
            },
        }
    }
}

} // verus!
