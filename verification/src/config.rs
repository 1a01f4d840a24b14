//! The shortcut store: the shortcut record itself, its type, and the
//! configuration that holds the ordered list of shortcuts, with verified
//! editing operations. Reading and writing the configuration file is the
//! caller's business; this module owns the data and its manipulation.

use vstd::pervasive::VecAdditionalExecFns;
use vstd::prelude::*;

verus! {

/// The closed set of shortcut kinds, each with its own launch strategy.
#[derive(Clone, Copy, Debug, PartialEq, Eq, Structural)]
pub enum ShortcutType {
    /// Launch an application.
    App,
    /// Open a URL in the default browser.
    Url,
    /// Open a file with its default application.
    File,
    /// Open a folder in the file browser.
    Folder,
    /// Run a script file (`.bat`, `.cmd`, `.ps1`, or a direct executable).
    Script,
    /// Run an inline shell script, possibly multi-line.
    Shell,
}

impl Default for ShortcutType {
    /// An absent or unrecognized type means [`ShortcutType::App`].
    fn default() -> (t: Self)
        ensures
            t == ShortcutType::App,
    {
        ShortcutType::App
    }
}

/// A named launch definition, persisted by the caller and consumed by the
/// dispatch engine.
pub struct Shortcut {
    /// Display name.
    pub name: String,
    /// Which launch strategy applies.
    pub shortcut_type: ShortcutType,
    /// Executable path, URL, file or folder path, or script-file path;
    /// empty for an inline shell script.
    pub command: String,
    /// The inline script body; used only by [`ShortcutType::Shell`].
    pub script: Option<String>,
    /// Raw, unparsed argument string.
    pub args: Option<String>,
    /// Working directory for the launched process.
    pub working_dir: Option<String>,
    /// Optional description shown by the caller's interface.
    pub description: Option<String>,
    /// Suppress the console window.
    pub hidden: bool,
    /// Which shell runs an inline script: `cmd`, `powershell` or `pwsh`.
    pub shell: Option<String>,
    /// Request elevated execution.
    pub admin: bool,
}

/// Clones an optional string, preserving its value exactly.
fn clone_opt_string(o: &Option<String>) -> (r: Option<String>)
    ensures
        r == *o,
{
    match o {
        Some(s) => Some(s.clone()),
        None => None,
    }
}

impl Clone for Shortcut {
    /// A clone is equal to the original, field for field.
    fn clone(&self) -> (r: Self)
        ensures
            r == *self,
    {
        Shortcut {
            name: self.name.clone(),
            shortcut_type: self.shortcut_type,
            command: self.command.clone(),
            script: clone_opt_string(&self.script),
            args: clone_opt_string(&self.args),
            working_dir: clone_opt_string(&self.working_dir),
            description: clone_opt_string(&self.description),
            hidden: self.hidden,
            shell: clone_opt_string(&self.shell),
            admin: self.admin,
        }
    }
}

/// The error of a configuration edit: the given position does not exist.
#[derive(Clone, Copy, Debug, PartialEq, Eq, Structural)]
pub enum ConfigError {
    IndexOutOfBounds,
}

impl ConfigError {
    /// The error's text, as the caller reports it.
    pub fn message(&self) -> (m: &'static str)
        ensures
            m@ == "Index out of bounds"@,
    {
        "Index out of bounds"
    }
}

/// The persisted configuration: the ordered list of shortcuts.
pub struct AppConfig {
    pub shortcuts: Vec<Shortcut>,
}

/// `o` holds a string whose characters are `s`.
pub open spec fn opt_str_is(o: Option<String>, s: Seq<char>) -> bool {
    match o {
        Some(v) => v@ == s,
        None => false,
    }
}

impl AppConfig {
    /// A copy of the shortcut list, in order.
    pub fn get_shortcuts(&self) -> (v: Vec<Shortcut>)
        ensures
            v@ == self.shortcuts@,
    {
        let n = self.shortcuts.len();
        let mut v: Vec<Shortcut> = Vec::new();
        let mut i: usize = 0;
        while i < n
            invariant
                n == self.shortcuts@.len(),
                i <= n,
                v@ == self.shortcuts@.subrange(0, i as int),
            decreases n - i,
        {
            v.push(self.shortcuts[i].clone());
            proof {
                assert(v@ =~= self.shortcuts@.subrange(0, i as int + 1));
            }
            i += 1;
        }
        proof {
            assert(self.shortcuts@.subrange(0, n as int) =~= self.shortcuts@);
        }
        v
    }

    /// Appends a shortcut at the end of the list.
    pub fn add_shortcut(&mut self, shortcut: Shortcut)
        ensures
            final(self).shortcuts@ == old(self).shortcuts@.push(shortcut),
    {
        self.shortcuts.push(shortcut);
    }

    /// Replaces the shortcut at `index`, or reports the index as out of
    /// bounds and leaves the list unchanged.
    pub fn update_shortcut(&mut self, index: usize, shortcut: Shortcut) -> (r: Result<
        (),
        ConfigError,
    >)
        ensures
            index < old(self).shortcuts@.len() ==> r is Ok && final(self).shortcuts@ == old(
                self,
            ).shortcuts@.update(index as int, shortcut),
            index >= old(self).shortcuts@.len() ==> r == Err::<(), ConfigError>(
                ConfigError::IndexOutOfBounds,
            ) && *final(self) == *old(self),
    {
        if index >= self.shortcuts.len() {
            return Err(ConfigError::IndexOutOfBounds);
        }
        self.shortcuts.set(index, shortcut);
        Ok(())
    }

    /// Removes the shortcut at `index`, or reports the index as out of
    /// bounds and leaves the list unchanged.
    pub fn delete_shortcut(&mut self, index: usize) -> (r: Result<(), ConfigError>)
        ensures
            index < old(self).shortcuts@.len() ==> r is Ok && final(self).shortcuts@ == old(
                self,
            ).shortcuts@.remove(index as int),
            index >= old(self).shortcuts@.len() ==> r == Err::<(), ConfigError>(
                ConfigError::IndexOutOfBounds,
            ) && *final(self) == *old(self),
    {
        if index >= self.shortcuts.len() {
            return Err(ConfigError::IndexOutOfBounds);
        }
        self.shortcuts.remove(index);
        Ok(())
    }

    /// Moves the shortcut at `from_index` so that it ends up at `to_index`,
    /// or reports an index as out of bounds and leaves the list unchanged.
    pub fn reorder_shortcut(&mut self, from_index: usize, to_index: usize) -> (r: Result<
        (),
        ConfigError,
    >)
        ensures
            from_index < old(self).shortcuts@.len() && to_index < old(self).shortcuts@.len()
                ==> r is Ok && final(self).shortcuts@ == old(self).shortcuts@.remove(
                from_index as int,
            ).insert(to_index as int, old(self).shortcuts@[from_index as int]),
            !(from_index < old(self).shortcuts@.len() && to_index < old(self).shortcuts@.len())
                ==> r == Err::<(), ConfigError>(ConfigError::IndexOutOfBounds) && *final(self)
                == *old(self),
    {
        if from_index >= self.shortcuts.len() || to_index >= self.shortcuts.len() {
            return Err(ConfigError::IndexOutOfBounds);
        }
        let item = self.shortcuts.remove(from_index);
        self.shortcuts.insert(to_index, item);
        Ok(())
    }
}

/// One default shortcut with everything beyond name, type and command left
/// empty and visible, non-elevated execution.
fn plain_shortcut(name: &str, shortcut_type: ShortcutType, command: &str) -> (s: Shortcut)
    ensures
        s.name@ == name@,
        s.shortcut_type == shortcut_type,
        s.command@ == command@,
        s.script is None,
        s.args is None,
        s.working_dir is None,
        s.description is None,
        !s.hidden,
        s.shell is None,
        !s.admin,
{
    Shortcut {
        name: String::from_str(name),
        shortcut_type,
        command: String::from_str(command),
        script: None,
        args: None,
        working_dir: None,
        description: None,
        hidden: false,
        shell: None,
        admin: false,
    }
}

impl Default for AppConfig {
    /// The configuration written on first use: a text editor, a calculator,
    /// a search-engine URL, the user's documents folder, and an inline
    /// system-information script.
    fn default() -> (c: Self)
        ensures
            c.shortcuts@.len() == 5,
            ({
                let s = c.shortcuts@[0];
                &&& s.name@ == "Notepad"@
                &&& s.shortcut_type == ShortcutType::App
                &&& s.command@ == "notepad.exe"@
                &&& s.script is None
                &&& s.args is None
                &&& s.working_dir is None
                &&& opt_str_is(s.description, "Text editor"@)
                &&& !s.hidden
                &&& s.shell is None
                &&& !s.admin
            }),
            ({
                let s = c.shortcuts@[1];
                &&& s.name@ == "Calculator"@
                &&& s.shortcut_type == ShortcutType::App
                &&& s.command@ == "calc.exe"@
                &&& s.script is None
                &&& s.args is None
                &&& s.working_dir is None
                &&& s.description is None
                &&& !s.hidden
                &&& s.shell is None
                &&& !s.admin
            }),
            ({
                let s = c.shortcuts@[2];
                &&& s.name@ == "Google"@
                &&& s.shortcut_type == ShortcutType::Url
                &&& s.command@ == "https://www.google.com"@
                &&& s.script is None
                &&& s.args is None
                &&& s.working_dir is None
                &&& opt_str_is(s.description, "Search engine"@)
                &&& !s.hidden
                &&& s.shell is None
                &&& !s.admin
            }),
            ({
                let s = c.shortcuts@[3];
                &&& s.name@ == "Documents"@
                &&& s.shortcut_type == ShortcutType::Folder
                &&& s.command@ == "%USERPROFILE%\\Documents"@
                &&& s.script is None
                &&& s.args is None
                &&& s.working_dir is None
                &&& s.description is None
                &&& !s.hidden
                &&& s.shell is None
                &&& !s.admin
            }),
            ({
                let s = c.shortcuts@[4];
                &&& s.name@ == "System Info"@
                &&& s.shortcut_type == ShortcutType::Shell
                &&& s.command@ == ""@
                &&& opt_str_is(
                    s.script,
                    "systeminfo | findstr /B /C:\"OS Name\" /C:\"OS Version\"\npause"@,
                )
                &&& s.args is None
                &&& s.working_dir is None
                &&& opt_str_is(s.description, "Show OS info"@)
                &&& !s.hidden
                &&& opt_str_is(s.shell, "cmd"@)
                &&& !s.admin
            }),
    {
        let mut shortcuts: Vec<Shortcut> = Vec::new();

        let mut notepad = plain_shortcut("Notepad", ShortcutType::App, "notepad.exe");
        notepad.description = Some(String::from_str("Text editor"));
        shortcuts.push(notepad);

        shortcuts.push(plain_shortcut("Calculator", ShortcutType::App, "calc.exe"));

        let mut google = plain_shortcut("Google", ShortcutType::Url, "https://www.google.com");
        google.description = Some(String::from_str("Search engine"));
        shortcuts.push(google);

        shortcuts.push(
            plain_shortcut("Documents", ShortcutType::Folder, "%USERPROFILE%\\Documents"),
        );

        let mut sysinfo = plain_shortcut("System Info", ShortcutType::Shell, "");
        sysinfo.script = Some(
            String::from_str("systeminfo | findstr /B /C:\"OS Name\" /C:\"OS Version\"\npause"),
        );
        sysinfo.description = Some(String::from_str("Show OS info"));
        sysinfo.shell = Some(String::from_str("cmd"));
        shortcuts.push(sysinfo);

        AppConfig { shortcuts }
    }
}

} // verus!
