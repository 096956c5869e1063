//! The configuration data model: keybindings, colors, and general
//! settings, with the built-in defaults. Reading and writing the
//! configuration file is the shell's business; this model only carries
//! the values.

use vstd::prelude::*;

verus! {

/// An ordered list of name/value bindings; lookup takes the first match.
#[derive(Debug, PartialEq)]
pub struct KeyMap {
    entries: Vec<(String, String)>,
}

/// First-match lookup over a binding list.
pub open spec fn map_get(entries: Seq<(String, String)>, key: Seq<char>) -> Option<Seq<char>>
    decreases entries.len(),
{
    if entries.len() == 0 {
        None
    } else if entries[0].0@ == key {
        Some(entries[0].1@)
    } else {
        map_get(entries.drop_first(), key)
    }
}

impl View for KeyMap {
    type V = Seq<(String, String)>;

    closed spec fn view(&self) -> Seq<(String, String)> {
        self.entries@
    }
}

impl KeyMap {
    /// An empty binding list.
    pub fn new() -> (r: Self)
        ensures
            r@ == Seq::<(String, String)>::empty(),
    {
        KeyMap { entries: Vec::new() }
    }

    /// Appends one binding.
    pub fn push_binding(&mut self, name: String, key: String)
        ensures
            final(self)@ == old(self)@.push((name, key)),
    {
        self.entries.push((name, key));
    }

    /// The number of bindings.
    pub fn len(&self) -> (r: usize)
        ensures
            r == self@.len(),
    {
        self.entries.len()
    }

    /// The binding at an index, for iteration.
    pub fn entry(&self, i: usize) -> (r: (&String, &String))
        requires
            i < self@.len(),
        ensures
            r.0 == self@[i as int].0,
            r.1 == self@[i as int].1,
    {
        let pair = &self.entries[i];
        (&pair.0, &pair.1)
    }

    /// Looks a name up, returning the first matching binding's key.
    pub fn get(&self, name: &str) -> (r: Option<&String>)
        ensures
            match r {
                Some(v) => map_get(self@, name@) == Some(v@),
                None => map_get(self@, name@) is None,
            },
    {
        let mut i: usize = 0;
        proof {
            assert(self@.skip(0) =~= self@);
        }
        while i < self.entries.len()
            invariant
                0 <= i <= self@.len(),
                map_get(self@, name@) == map_get(self@.skip(i as int), name@),
            decreases self@.len() - i,
        {
            proof {
                assert(self@.skip(i as int).drop_first() =~= self@.skip(i + 1));
            }
            if crate::strutil::str_eq(self.entries[i].0.as_str(), name) {
                return Some(&self.entries[i].1);
            }
            i += 1;
        }
        proof {
            assert(self@.skip(self@.len() as int) =~= Seq::<(String, String)>::empty());
        }
        None
    }
}

impl Clone for KeyMap {
    fn clone(&self) -> (r: Self)
        ensures
            r@ == self@,
    {
        let mut entries: Vec<(String, String)> = Vec::new();
        let mut i: usize = 0;
        while i < self.entries.len()
            invariant
                0 <= i <= self@.len(),
                entries@ == self@.take(i as int),
            decreases self@.len() - i,
        {
            let pair = &self.entries[i];
            entries.push((pair.0.clone(), pair.1.clone()));
            proof {
                assert(entries@ =~= self@.take(i + 1));
            }
            i += 1;
        }
        proof {
            assert(self@.take(self@.len() as int) =~= self@);
        }
        KeyMap { entries }
    }
}

/// Keybinding configuration organised by view.
#[derive(Debug, Clone, PartialEq)]
pub struct KeyBindings {
    /// Global keybindings available in all views.
    pub global: KeyMap,
    /// History view keybindings.
    pub main: KeyMap,
    /// Diff view keybindings.
    pub diff: KeyMap,
    /// Status view keybindings.
    pub status: KeyMap,
}

impl Default for KeyBindings {
    fn default() -> (r: Self)
        ensures
            r.global@.len() == 3,
            r.main@.len() == 4,
            r.diff@.len() == 4,
            r.status@.len() == 4,
            map_get(r.global@, "quit"@) == Some("q"@),
    {
        let mut global = KeyMap::new();
        global.push_binding(String::from_str("quit"), String::from_str("q"));
        global.push_binding(String::from_str("help"), String::from_str("?"));
        global.push_binding(String::from_str("refresh"), String::from_str("r"));

        let mut main = KeyMap::new();
        main.push_binding(String::from_str("search"), String::from_str("/"));
        main.push_binding(String::from_str("status"), String::from_str("s"));
        main.push_binding(String::from_str("diff"), String::from_str("d"));
        main.push_binding(String::from_str("enter"), String::from_str("Enter"));

        let mut diff = KeyMap::new();
        diff.push_binding(String::from_str("scroll_up"), String::from_str("k"));
        diff.push_binding(String::from_str("scroll_down"), String::from_str("j"));
        diff.push_binding(String::from_str("page_up"), String::from_str("PageUp"));
        diff.push_binding(String::from_str("page_down"), String::from_str("PageDown"));

        let mut status = KeyMap::new();
        status.push_binding(String::from_str("stage"), String::from_str("s"));
        status.push_binding(String::from_str("unstage"), String::from_str("u"));
        status.push_binding(String::from_str("commit"), String::from_str("c"));
        status.push_binding(String::from_str("diff"), String::from_str("d"));

        KeyBindings { global, main, diff, status }
    }
}

/// Color configuration for the UI elements, as user-written color names.
#[derive(Debug, Clone, PartialEq)]
pub struct Colors {
    /// Color for added lines in diffs.
    pub added: String,
    /// Color for deleted lines in diffs.
    pub deleted: String,
    /// Color for modified content.
    pub modified: String,
    /// Color for unmodified content.
    pub unmodified: String,
    /// Color for commit hashes.
    pub commit_hash: String,
    /// Color for dates.
    pub date: String,
    /// Color for authors.
    pub author: String,
    /// Style for selected items.
    pub selected: String,
    /// Style for the status bar.
    pub status_bar: String,
}

impl Default for Colors {
    fn default() -> (r: Self)
        ensures
            r.added@ == "green"@,
            r.deleted@ == "red"@,
            r.modified@ == "yellow"@,
            r.unmodified@ == "black"@,
            r.commit_hash@ == "cyan"@,
            r.date@ == "blue"@,
            r.author@ == "magenta"@,
            r.selected@ == "black on white"@,
            r.status_bar@ == "black on cyan"@,
    {
        Colors {
            added: String::from_str("green"),
            deleted: String::from_str("red"),
            modified: String::from_str("yellow"),
            unmodified: String::from_str("black"),
            commit_hash: String::from_str("cyan"),
            date: String::from_str("blue"),
            author: String::from_str("magenta"),
            selected: String::from_str("black on white"),
            status_bar: String::from_str("black on cyan"),
        }
    }
}

/// General application settings.
#[derive(Debug, Clone, PartialEq)]
pub struct Settings {
    /// Number of commits to load per chunk.
    pub commit_chunk_size: usize,
    /// Date format string.
    pub date_format: String,
    /// Enable or disable mouse support.
    pub mouse_support: bool,
    /// Show line numbers in the diff view.
    pub show_line_numbers: bool,
    /// Tab width for display.
    pub tab_width: usize,
}

impl Default for Settings {
    fn default() -> (r: Self)
        ensures
            r.commit_chunk_size == 50,
            r.date_format@ == "%Y-%m-%d %H:%M"@,
            r.mouse_support == true,
            r.show_line_numbers == true,
            r.tab_width == 4,
    {
        Settings {
            commit_chunk_size: 50,
            date_format: String::from_str("%Y-%m-%d %H:%M"),
            mouse_support: true,
            show_line_numbers: true,
            tab_width: 4,
        }
    }
}

/// The whole configuration.
#[derive(Debug, Clone, PartialEq)]
pub struct Config {
    /// Keybinding configuration for the views.
    pub keybindings: KeyBindings,
    /// Color scheme configuration.
    pub colors: Colors,
    /// General application settings.
    pub settings: Settings,
}

impl Default for Config {
    fn default() -> (r: Self)
        ensures
            map_get(r.keybindings.global@, "quit"@) == Some("q"@),
            r.colors.added@ == "green"@,
            r.colors.deleted@ == "red"@,
            r.colors.modified@ == "yellow"@,
            r.colors.selected@ == "black on white"@,
            r.colors.status_bar@ == "black on cyan"@,
            r.settings.commit_chunk_size == 50,
            r.settings.date_format@ == "%Y-%m-%d %H:%M"@,
            r.settings.mouse_support == true,
            r.settings.show_line_numbers == true,
            r.settings.tab_width == 4,
    {
        Config {
            keybindings: KeyBindings::default(),
            colors: Colors::default(),
            settings: Settings::default(),
        }
    }
}

} // verus!
