use crate::chars::{
    append_chars, append_str, chars_eq, chars_of, chars_views, dec_text, push_decimal, slice_chars, split_char, split_exec,
    string_from, string_of,
};
use crate::filepicker::{file_name_of, parent_of, path_file_name, path_parent};
use crate::keys::{KeyCode, KeyEvent};
use crate::minreg::{edited_by, form_edit_key, same_field};
use crate::textinput::{edit_input, input_room, input_new, input_set_value, input_text, input_value, input_with};
use vstd::prelude::*;

verus! {

/// Where the master is installed: the system locations, or a directory of the user's choice.
#[derive(Clone, Copy, PartialEq, Eq, Debug, Structural)]
pub enum InstallationMode {
    SystemWide,
    Custom,
}

/// Focus inside the first-run setup wizard.
#[derive(Clone, Copy, PartialEq, Eq, Debug, Structural)]
pub enum SetupFocus {
    SysMasterPath,
    SystemRadio,
    CustomRadio,
    CustomDest,
    BindAddr,
    BindPort,
    FsPort,
    ApiCheck,
    OkBtn,
    Cancel,
}

/// The next field; the destination field exists only for a custom installation.
pub open spec fn setup_next(f: SetupFocus, mode: InstallationMode) -> SetupFocus {
    match f {
        SetupFocus::SysMasterPath => SetupFocus::SystemRadio,
        SetupFocus::SystemRadio => SetupFocus::CustomRadio,
        SetupFocus::CustomRadio => if mode == InstallationMode::Custom { SetupFocus::CustomDest } else { SetupFocus::BindAddr },
        SetupFocus::CustomDest => SetupFocus::BindAddr,
        SetupFocus::BindAddr => SetupFocus::BindPort,
        SetupFocus::BindPort => SetupFocus::FsPort,
        SetupFocus::FsPort => SetupFocus::ApiCheck,
        SetupFocus::ApiCheck => SetupFocus::OkBtn,
        SetupFocus::OkBtn => SetupFocus::Cancel,
        SetupFocus::Cancel => SetupFocus::SysMasterPath,
    }
}

pub open spec fn setup_prev(f: SetupFocus, mode: InstallationMode) -> SetupFocus {
    match f {
        SetupFocus::SysMasterPath => SetupFocus::Cancel,
        SetupFocus::SystemRadio => SetupFocus::SysMasterPath,
        SetupFocus::CustomRadio => SetupFocus::SystemRadio,
        SetupFocus::CustomDest => SetupFocus::CustomRadio,
        SetupFocus::BindAddr => if mode == InstallationMode::Custom { SetupFocus::CustomDest } else { SetupFocus::CustomRadio },
        SetupFocus::BindPort => SetupFocus::BindAddr,
        SetupFocus::FsPort => SetupFocus::BindPort,
        SetupFocus::ApiCheck => SetupFocus::FsPort,
        SetupFocus::OkBtn => SetupFocus::ApiCheck,
        SetupFocus::Cancel => SetupFocus::OkBtn,
    }
}

impl SetupFocus {
    pub fn next(self, mode: InstallationMode) -> (r: SetupFocus)
        ensures
            r == setup_next(self, mode),
    {
        match self {
            SetupFocus::SysMasterPath => SetupFocus::SystemRadio,
            SetupFocus::SystemRadio => SetupFocus::CustomRadio,
            SetupFocus::CustomRadio => if mode == InstallationMode::Custom { SetupFocus::CustomDest } else { SetupFocus::BindAddr },
            SetupFocus::CustomDest => SetupFocus::BindAddr,
            SetupFocus::BindAddr => SetupFocus::BindPort,
            SetupFocus::BindPort => SetupFocus::FsPort,
            SetupFocus::FsPort => SetupFocus::ApiCheck,
            SetupFocus::ApiCheck => SetupFocus::OkBtn,
            SetupFocus::OkBtn => SetupFocus::Cancel,
            SetupFocus::Cancel => SetupFocus::SysMasterPath,
        }
    }

    pub fn prev(self, mode: InstallationMode) -> (r: SetupFocus)
        ensures
            r == setup_prev(self, mode),
    {
        match self {
            SetupFocus::SysMasterPath => SetupFocus::Cancel,
            SetupFocus::SystemRadio => SetupFocus::SysMasterPath,
            SetupFocus::CustomRadio => SetupFocus::SystemRadio,
            SetupFocus::CustomDest => SetupFocus::CustomRadio,
            SetupFocus::BindAddr => if mode == InstallationMode::Custom { SetupFocus::CustomDest } else { SetupFocus::CustomRadio },
            SetupFocus::BindPort => SetupFocus::BindAddr,
            SetupFocus::FsPort => SetupFocus::BindPort,
            SetupFocus::ApiCheck => SetupFocus::FsPort,
            SetupFocus::OkBtn => SetupFocus::ApiCheck,
            SetupFocus::Cancel => SetupFocus::OkBtn,
        }
    }
}

/// Law: Tab then Shift+Tab (and Shift+Tab then Tab) return to the starting field, for every
/// field that the mode shows (the destination field is skipped in a system-wide installation).
pub proof fn law_setup_focus_round_trip(f: SetupFocus, mode: InstallationMode)
    requires
        !(f == SetupFocus::CustomDest && mode == InstallationMode::SystemWide),
    ensures
        setup_prev(setup_next(f, mode), mode) == f,
        setup_next(setup_prev(f, mode), mode) == f,
{
}

/// The text field under the focus: 0 sysmaster path, 1 destination, 2 bind address,
/// 3 bind port, 4 file server port.
pub open spec fn setup_field(f: SetupFocus) -> Option<int> {
    match f {
        SetupFocus::SysMasterPath => Some(0),
        SetupFocus::CustomDest => Some(1),
        SetupFocus::BindAddr => Some(2),
        SetupFocus::BindPort => Some(3),
        SetupFocus::FsPort => Some(4),
        _ => None,
    }
}

/// The first-run wizard that writes a master configuration.
pub struct MasterSetupWizard {
    pub visible: bool,
    pub installation_mode: InstallationMode,
    pub sysmaster_path: ratatui_cheese::input::InputState,
    pub launch_file_picker: bool,
    pub launch_dir_picker: bool,
    pub custom_destination: ratatui_cheese::input::InputState,
    pub bind_addr: ratatui_cheese::input::InputState,
    pub bind_port: ratatui_cheese::input::InputState,
    pub fs_port: ratatui_cheese::input::InputState,
    pub api_enabled: bool,
    pub focus: SetupFocus,
    pub ok_pressed: bool,
    pub quit_requested: bool,
    pub error_message: Option<String>,
}

/// Progress of writing the installation.
#[derive(Debug, Clone)]
pub struct SetupProgress {
    pub visible: bool,
    pub current: usize,
    pub total: usize,
    pub message: String,
    pub done: bool,
    pub error: Option<String>,
}

impl SetupProgress {
    pub fn new() -> (r: SetupProgress)
        ensures
            r.visible,
            r.current == 0,
            r.total == 0,
            r.message@ == "Scanning setup artifacts..."@,
            !r.done,
            r.error is None,
    {
        SetupProgress { visible: true, current: 0, total: 0, message: string_from("Scanning setup artifacts..."), done: false, error: None }
    }

    pub fn hidden() -> (r: SetupProgress)
        ensures
            !r.visible,
            r.current == 0,
            r.total == 0,
            r.message@.len() == 0,
            !r.done,
            r.error is None,
    {
        SetupProgress { visible: false, current: 0, total: 0, message: String::new(), done: false, error: None }
    }
}

/// What the wizard asks to install, as plain values.
#[derive(Debug, Clone)]
pub struct SetupRequest {
    pub installation_mode: InstallationMode,
    pub sysmaster_path: String,
    pub custom_destination: String,
    pub bind_addr: String,
    pub bind_port: String,
    pub fs_port: String,
    pub api_enabled: bool,
}

impl MasterSetupWizard {
    /// A hidden wizard for a system-wide installation: the given sysmaster binary, if one was
    /// found, the current directory as custom destination, 0.0.0.0:4200, file server port 4201,
    /// API on.
    pub fn new(cwd: String, sysmaster_candidate: Option<String>) -> (r: MasterSetupWizard)
        ensures
            !r.visible,
            r.installation_mode == InstallationMode::SystemWide,
            input_text(r.sysmaster_path) == match sysmaster_candidate {
                Some(p) => p@,
                None => Seq::<char>::empty(),
            },
            input_text(r.custom_destination) == cwd@,
            input_text(r.bind_addr) == "0.0.0.0"@,
            input_text(r.bind_port) == "4200"@,
            input_text(r.fs_port) == "4201"@,
            r.api_enabled,
            r.focus == SetupFocus::SysMasterPath,
            !r.launch_file_picker && !r.launch_dir_picker && !r.ok_pressed && !r.quit_requested,
            r.error_message is None,
    {
        let mut sysmaster_path = input_new();
        match sysmaster_candidate {
            Some(p) => input_set_value(&mut sysmaster_path, p),
            None => {},
        }
        MasterSetupWizard {
            visible: false,
            installation_mode: InstallationMode::SystemWide,
            sysmaster_path,
            launch_file_picker: false,
            launch_dir_picker: false,
            custom_destination: input_with(cwd),
            bind_addr: input_with(string_from("0.0.0.0")),
            bind_port: input_with(string_from("4200")),
            fs_port: input_with(string_from("4201")),
            api_enabled: true,
            focus: SetupFocus::SysMasterPath,
            ok_pressed: false,
            quit_requested: false,
            error_message: None,
        }
    }

    /// The request that the wizard's fields describe.
    pub fn to_request(&self) -> (r: SetupRequest)
        ensures
            r.installation_mode == self.installation_mode,
            r.sysmaster_path@ == input_text(self.sysmaster_path),
            r.custom_destination@ == input_text(self.custom_destination),
            r.bind_addr@ == input_text(self.bind_addr),
            r.bind_port@ == input_text(self.bind_port),
            r.fs_port@ == input_text(self.fs_port),
            r.api_enabled == self.api_enabled,
    {
        SetupRequest {
            installation_mode: self.installation_mode,
            sysmaster_path: string_from(input_value(&self.sysmaster_path)),
            custom_destination: string_from(input_value(&self.custom_destination)),
            bind_addr: string_from(input_value(&self.bind_addr)),
            bind_port: string_from(input_value(&self.bind_port)),
            fs_port: string_from(input_value(&self.fs_port)),
            api_enabled: self.api_enabled,
        }
    }

    /// A key on the wizard: Tab and Shift+Tab move the focus (the destination field only in a
    /// custom installation); Enter opens the file or directory picker on the path fields,
    /// presses Ok or Cancel, picks a radio button, toggles the API box; Esc asks to quit;
    /// Space toggles the API box; editing keys edit the focused field. A hidden wizard uses no key.
    pub fn handle_key(&mut self, key: KeyEvent) -> (used: bool)
        requires
            input_room(old(self).sysmaster_path),
            input_room(old(self).custom_destination),
            input_room(old(self).bind_addr),
            input_room(old(self).bind_port),
            input_room(old(self).fs_port),
        ensures
            used == old(self).visible,
            !old(self).visible ==> *final(self) == *old(self),
            old(self).visible ==> {
                let k = key.code;
                let f = old(self).focus;
                let m = old(self).installation_mode;
                let enter = k == KeyCode::Enter;
                &&& final(self).focus == if k == KeyCode::Tab {
                    if key.shift { setup_prev(f, m) } else { setup_next(f, m) }
                } else if k == KeyCode::BackTab {
                    setup_prev(f, m)
                } else {
                    f
                }
                &&& final(self).launch_file_picker == (old(self).launch_file_picker || (enter && f == SetupFocus::SysMasterPath))
                &&& final(self).launch_dir_picker == (old(self).launch_dir_picker || (enter && f == SetupFocus::CustomDest))
                &&& final(self).ok_pressed == (old(self).ok_pressed || (enter && f == SetupFocus::OkBtn))
                &&& final(self).quit_requested == (old(self).quit_requested || k == KeyCode::Esc || (enter && f == SetupFocus::Cancel))
                &&& final(self).installation_mode == if enter && f == SetupFocus::SystemRadio {
                    InstallationMode::SystemWide
                } else if enter && f == SetupFocus::CustomRadio {
                    InstallationMode::Custom
                } else {
                    m
                }
                &&& final(self).api_enabled == (old(self).api_enabled != (f == SetupFocus::ApiCheck && (enter || k == KeyCode::Char(' '))))
                &&& final(self).visible == old(self).visible
                &&& if form_edit_key(k) && setup_field(f) == Some(0int) { edited_by(old(self).sysmaster_path, final(self).sysmaster_path, k) } else { same_field(old(self).sysmaster_path, final(self).sysmaster_path) }
                &&& if form_edit_key(k) && setup_field(f) == Some(1int) { edited_by(old(self).custom_destination, final(self).custom_destination, k) } else { same_field(old(self).custom_destination, final(self).custom_destination) }
                &&& if form_edit_key(k) && setup_field(f) == Some(2int) { edited_by(old(self).bind_addr, final(self).bind_addr, k) } else { same_field(old(self).bind_addr, final(self).bind_addr) }
                &&& if form_edit_key(k) && setup_field(f) == Some(3int) { edited_by(old(self).bind_port, final(self).bind_port, k) } else { same_field(old(self).bind_port, final(self).bind_port) }
                &&& if form_edit_key(k) && setup_field(f) == Some(4int) { edited_by(old(self).fs_port, final(self).fs_port, k) } else { same_field(old(self).fs_port, final(self).fs_port) }
            },
    {
        if !self.visible {
            return false;
        }
        match key.code {
            KeyCode::Tab => {
                self.focus = if key.shift {
                    self.focus.prev(self.installation_mode)
                } else {
                    self.focus.next(self.installation_mode)
                };
            },
            KeyCode::BackTab => {
                self.focus = self.focus.prev(self.installation_mode);
            },
            KeyCode::Enter => match self.focus {
                SetupFocus::SysMasterPath => {
                    self.launch_file_picker = true;
                },
                SetupFocus::OkBtn => {
                    self.ok_pressed = true;
                },
                SetupFocus::Cancel => {
                    self.quit_requested = true;
                },
                SetupFocus::SystemRadio => {
                    self.installation_mode = InstallationMode::SystemWide;
                },
                SetupFocus::CustomRadio => {
                    self.installation_mode = InstallationMode::Custom;
                },
                SetupFocus::CustomDest => {
                    self.launch_dir_picker = true;
                },
                SetupFocus::ApiCheck => {
                    self.api_enabled = !self.api_enabled;
                },
                _ => {},
            },
            KeyCode::Esc => {
                self.quit_requested = true;
            },
            KeyCode::Char(' ') => {
                if self.focus == SetupFocus::ApiCheck {
                    self.api_enabled = !self.api_enabled;
                }
            },
            _ => {
                match self.focus {
                    SetupFocus::SysMasterPath => {
                        edit_input(key.code, &mut self.sysmaster_path);
                    },
                    SetupFocus::CustomDest => {
                        edit_input(key.code, &mut self.custom_destination);
                    },
                    SetupFocus::BindAddr => {
                        edit_input(key.code, &mut self.bind_addr);
                    },
                    SetupFocus::BindPort => {
                        edit_input(key.code, &mut self.bind_port);
                    },
                    SetupFocus::FsPort => {
                        edit_input(key.code, &mut self.fs_port);
                    },
                    _ => {},
                }
            },
        }
        true
    }

    /// Whether the focus is on `target`.
    pub fn is_focused(&self, target: SetupFocus) -> (r: bool)
        ensures
            r == (self.focus == target),
    {
        self.focus == target
    }
}


impl MasterSetupWizard {
    /// A wizard filled from an existing configuration: system-wide when its root is the system
    /// location (decided by the caller), bind address and port from `bind` (`address:port`,
    /// port 4200 when absent), file server port from `fs_bind` (4201 when absent), the API
    /// flag, and the root as custom destination for a custom installation.
    pub fn from_config(
        is_system: bool,
        root: &str,
        bind: &str,
        fs_bind: &str,
        api_enabled: bool,
        cwd: String,
        sysmaster_candidate: Option<String>,
    ) -> (r: MasterSetupWizard)
        ensures
            r.installation_mode == if is_system { InstallationMode::SystemWide } else { InstallationMode::Custom },
            input_text(r.bind_addr) == split_char(bind@, ':')[0],
            input_text(r.bind_port) == if split_char(bind@, ':').len() > 1 { split_char(bind@, ':')[1] } else { "4200"@ },
            input_text(r.fs_port) == if split_char(fs_bind@, ':').len() > 1 { split_char(fs_bind@, ':')[1] } else { "4201"@ },
            r.api_enabled == api_enabled,
            input_text(r.custom_destination) == if is_system { cwd@ } else { root@ },
            input_text(r.sysmaster_path) == match sysmaster_candidate {
                Some(p) => p@,
                None => Seq::<char>::empty(),
            },
            r.focus == SetupFocus::SysMasterPath,
            !r.visible,
    {
        let mut w = MasterSetupWizard::new(cwd, sysmaster_candidate);
        w.installation_mode = if is_system { InstallationMode::SystemWide } else { InstallationMode::Custom };
        let b = chars_of(bind);
        let bp = split_exec(&b, ':');
        assert(chars_views(bp@)[0] == bp@[0]@);
        input_set_value(&mut w.bind_addr, string_of(&bp[0]));
        if bp.len() > 1 {
            assert(chars_views(bp@)[1] == bp@[1]@);
            input_set_value(&mut w.bind_port, string_of(&bp[1]));
        } else {
            input_set_value(&mut w.bind_port, string_from("4200"));
        }
        let f = chars_of(fs_bind);
        let fp = split_exec(&f, ':');
        if fp.len() > 1 {
            assert(chars_views(fp@)[1] == fp@[1]@);
            input_set_value(&mut w.fs_port, string_of(&fp[1]));
        } else {
            input_set_value(&mut w.fs_port, string_from("4201"));
        }
        w.api_enabled = api_enabled;
        if !is_system {
            input_set_value(&mut w.custom_destination, string_from(root));
        }
        w.focus = SetupFocus::SysMasterPath;
        w
    }
}

/// Whether every character is an ASCII digit.
pub open spec fn all_digits(s: Seq<char>) -> bool {
    forall|i: int| 0 <= i < s.len() ==> '0' <= #[trigger] s[i] <= '9'
}

/// The value of a run of decimal digits.
pub open spec fn digits_value(s: Seq<char>) -> nat
    decreases s.len(),
{
    if s.len() == 0 {
        0
    } else {
        digits_value(s.drop_last()) * 10 + ((s.last() as u32) - ('0' as u32)) as nat
    }
}

/// What `u32::from_str` accepts: an optional `+`, then at least one decimal digit, with a value
/// that fits in 32 bits.
pub open spec fn parse_u32_spec(s: Seq<char>) -> Option<u32> {
    let body = if s.len() > 0 && s[0] == '+' { s.skip(1) } else { s };
    if body.len() > 0 && all_digits(body) && digits_value(body) <= u32::MAX {
        Some(digits_value(body) as u32)
    } else {
        None
    }
}

/// Parses a port number as `str::parse::<u32>` does.
pub fn parse_u32(s: &str) -> (r: Option<u32>)
    ensures
        r == parse_u32_spec(s@),
{
    let v = chars_of(s);
    let start: usize = if v.len() > 0 && v[0] == '+' { 1 } else { 0 };
    let ghost body = if s@.len() > 0 && s@[0] == '+' { s@.skip(1) } else { s@ };
    proof {
        assert(body =~= v@.skip(start as int));
    }
    if start >= v.len() {
        return None;
    }
    let mut val: u64 = 0;
    let mut i: usize = start;
    while i < v.len()
        invariant
            start <= i <= v.len(),
            v@ == s@,
            body == (if s@.len() > 0 && s@[0] == '+' { s@.skip(1) } else { s@ }),
            body == v@.skip(start as int),
            body.len() > 0,
            all_digits(v@.subrange(start as int, i as int)),
            val as nat == digits_value(v@.subrange(start as int, i as int)),
            val <= u32::MAX,
        decreases v.len() - i,
    {
        let c = v[i];
        if !('0' <= c && c <= '9') {
            proof {
                assert(body[i - start] == c);
                assert(!('0' <= body[i - start] <= '9'));
                assert(!all_digits(body));
            }
            return None;
        }
        let d = (c as u32 - '0' as u32) as u64;
        let nv = val * 10 + d;
        proof {
            assert(v@.subrange(start as int, i as int + 1).drop_last() == v@.subrange(start as int, i as int));
            assert(v@.subrange(start as int, i as int + 1).last() == c);
        }
        if nv > 4294967295u64 {
            proof {
                assert(body.take((i + 1 - start) as int) =~= v@.subrange(start as int, i as int + 1));
                if all_digits(body) {
                    lemma_digits_value_prefix(body, (i + 1 - start) as int);
                }
            }
            return None;
        }
        val = nv;
        i = i + 1;
    }
    proof {
        assert(v@.subrange(start as int, v.len() as int) =~= body);
    }
    Some(val as u32)
}

/// A run of digits is worth at least any of its prefixes.
pub proof fn lemma_digits_value_prefix(s: Seq<char>, k: int)
    requires
        0 <= k <= s.len(),
        all_digits(s),
    ensures
        digits_value(s.take(k)) <= digits_value(s),
    decreases s.len(),
{
    if k < s.len() {
        assert(s.drop_last().take(k) =~= s.take(k));
        assert(all_digits(s.drop_last()));
        lemma_digits_value_prefix(s.drop_last(), k);
    } else {
        assert(s.take(k) =~= s);
    }
}

/// `root` joined with a relative path as `PathBuf::join` does it on Unix: a separator is put
/// between them unless `root` is empty or already ends with one.
pub open spec fn join_rel(root: Seq<char>, rel: Seq<char>) -> Seq<char> {
    if root.len() > 0 && root.last() != '/' {
        root + seq!['/'] + rel
    } else {
        root + rel
    }
}

pub fn join_rel_exec(root: &str, rel: &str) -> (r: String)
    ensures
        r@ == join_rel(root@, rel@),
{
    let mut v = chars_of(root);
    if v.len() > 0 && v[v.len() - 1] != '/' {
        v.push('/');
    }
    append_str(&mut v, rel);
    proof {
        assert(v@ =~= join_rel(root@, rel@));
    }
    string_of(&v)
}

impl SetupRequest {
    /// Number of progress steps for a run that copies `entry_count` files: one per file plus
    /// writing the configuration.
    pub fn total_progress_steps(entry_count: usize) -> (r: usize)
        ensures
            r == if entry_count < usize::MAX { entry_count + 1 } else { usize::MAX as int },
    {
        if entry_count < usize::MAX { entry_count + 1 } else { usize::MAX }
    }

    /// The installation root: `/etc/sysinspect`, or the chosen destination.
    pub fn root_dir(&self) -> (r: String)
        ensures
            r@ == if self.installation_mode == InstallationMode::SystemWide { "/etc/sysinspect"@ } else { self.custom_destination@ },
    {
        match self.installation_mode {
            InstallationMode::SystemWide => string_from("/etc/sysinspect"),
            InstallationMode::Custom => string_from(self.custom_destination.as_str()),
        }
    }

    /// The command to start the installed console: `sysinspect` from the path, or the copy under
    /// the custom root.
    pub fn installed_sysinspect_path(&self) -> (r: String)
        ensures
            r@ == if self.installation_mode == InstallationMode::Custom {
                join_rel(self.custom_destination@, "bin/sysinspect"@)
            } else {
                "sysinspect"@
            },
    {
        if self.installation_mode == InstallationMode::Custom {
            let root = self.root_dir();
            join_rel_exec(root.as_str(), "bin/sysinspect")
        } else {
            string_from("sysinspect")
        }
    }

    /// Both port fields as numbers, or the message for the first that is not one.
    pub fn ports(&self) -> (r: Result<(u32, u32), String>)
        ensures
            parse_u32_spec(self.bind_port@) is Some && parse_u32_spec(self.fs_port@) is None ==> r is Err && r->Err_0@
                == "Invalid fileserver port"@,
            parse_u32_spec(self.bind_port@) is None ==> r is Err && r->Err_0@ == "Invalid bind port"@,
            parse_u32_spec(self.bind_port@) is Some && parse_u32_spec(self.fs_port@) is Some ==> r == Ok::<(u32, u32), String>(
                (parse_u32_spec(self.bind_port@)->0, parse_u32_spec(self.fs_port@)->0),
            ),
    {
        let bp = match parse_u32(self.bind_port.as_str()) {
            Some(p) => p,
            None => return Err(string_from("Invalid bind port")),
        };
        let fp = match parse_u32(self.fs_port.as_str()) {
            Some(p) => p,
            None => return Err(string_from("Invalid fileserver port")),
        };
        Ok((bp, fp))
    }
}


/// The pieces joined with `sep` between each two (what `[_]::join` gives).
pub open spec fn join_with(parts: Seq<Seq<char>>, sep: Seq<char>) -> Seq<char>
    decreases parts.len(),
{
    if parts.len() == 0 {
        Seq::<char>::empty()
    } else if parts.len() == 1 {
        parts[0]
    } else {
        join_with(parts.drop_last(), sep) + sep + parts.last()
    }
}

/// The strings of `parts` joined with `sep` between them.
pub fn join_strings(parts: &Vec<String>, sep: &str) -> (r: String)
    ensures
        r@ == join_with(parts.deep_view(), sep@),
{
    let mut out: Vec<char> = Vec::new();
    let mut i: usize = 0;
    while i < parts.len()
        invariant
            i <= parts.len(),
            out@ == join_with(parts.deep_view().take(i as int), sep@),
        decreases parts.len() - i,
    {
        let ghost o = out@;
        if i > 0 {
            append_str(&mut out, sep);
        }
        append_str(&mut out, parts[i].as_str());
        proof {
            let t = parts.deep_view().take(i as int + 1);
            assert(t.drop_last() =~= parts.deep_view().take(i as int));
            assert(t.last() == parts@[i as int]@);
            if i == 0 {
                assert(out@ =~= t[0]);
            } else {
                assert(out@ =~= o + sep@ + t.last());
            }
        }
        i = i + 1;
    }
    assert(parts.deep_view().take(parts.len() as int) =~= parts.deep_view());
    string_of(&out)
}

/// The root of the distribution that a `sysinspect` binary at `exe` belongs to: the parent of
/// the directory that holds it.
pub open spec fn dist_root_spec(exe: Seq<char>) -> Result<Seq<char>, Seq<char>> {
    match path_parent(exe) {
        Some(bin) => match path_parent(bin) {
            Some(root) => Ok(root),
            None => Err("Cannot resolve dist root from "@ + exe),
        },
        None => Err("Cannot resolve dist root from "@ + exe),
    }
}

/// The platform and architecture of a distribution root `<platform>/<label>`: the platform is
/// the name of the root's parent directory, the architecture comes from the label (see
/// `arch_from_label_spec`).
pub open spec fn dist_platform_arch_spec(dist: Seq<char>) -> Result<(Seq<char>, Seq<char>), Seq<char>> {
    let platform = match path_parent(dist) {
        Some(p) => path_file_name(p),
        None => None,
    };
    match platform {
        None => Err("Cannot resolve platform from "@ + dist),
        Some(pl) => match path_file_name(dist) {
            None => Err("Cannot resolve dist label from "@ + dist),
            Some(label) => match arch_from_label_spec(label) {
                Ok(a) => Ok((pl, a)),
                Err(e) => Err(e),
            },
        },
    }
}

fn error_with(msg: &str, path: &str) -> (r: String)
    ensures
        r@ == msg@ + path@,
{
    let mut e = chars_of(msg);
    append_str(&mut e, path);
    string_of(&e)
}

/// The distribution root of the binary at `exe`, see `dist_root_spec`.
pub fn dist_root_of(exe: &str) -> (r: Result<String, String>)
    ensures
        match dist_root_spec(exe@) {
            Ok(root) => r is Ok && r->Ok_0@ == root,
            Err(e) => r is Err && r->Err_0@ == e,
        },
{
    match parent_of(exe) {
        Some(bin) => match parent_of(bin.as_str()) {
            Some(root) => Ok(root),
            None => Err(error_with("Cannot resolve dist root from ", exe)),
        },
        None => Err(error_with("Cannot resolve dist root from ", exe)),
    }
}

/// The platform and architecture of the distribution rooted at `dist`, see
/// `dist_platform_arch_spec`.
pub fn dist_platform_arch(dist: &str) -> (r: Result<(String, String), String>)
    ensures
        match dist_platform_arch_spec(dist@) {
            Ok(pa) => r is Ok && r->Ok_0.0@ == pa.0 && r->Ok_0.1@ == pa.1,
            Err(e) => r is Err && r->Err_0@ == e,
        },
{
    let platform = match parent_of(dist) {
        Some(p) => file_name_of(p.as_str()),
        None => None,
    };
    let platform = match platform {
        Some(pl) => pl,
        None => {
            return Err(error_with("Cannot resolve platform from ", dist));
        },
    };
    let label = match file_name_of(dist) {
        Some(l) => l,
        None => {
            return Err(error_with("Cannot resolve dist label from ", dist));
        },
    };
    match arch_from_label(label.as_str()) {
        Ok(a) => Ok((platform, a)),
        Err(e) => Err(e),
    }
}

/// Where an installation puts its configuration and whether it carries a distribution tree.
#[derive(Debug, Clone, Copy, PartialEq, Eq, Structural)]
pub struct InstallLayout {
    /// The configuration goes into `etc` under the root (otherwise into the root itself).
    pub config_in_etc: bool,
    /// The binaries, models and modules of the distribution are copied into the root.
    pub copy_dist: bool,
}

/// A system-wide installation writes its configuration into the root and copies nothing; a
/// custom one writes it into `etc` under the root and copies the distribution.
pub fn install_layout(mode: InstallationMode) -> (r: InstallLayout)
    ensures
        r.config_in_etc == (mode != InstallationMode::SystemWide),
        r.copy_dist == (mode != InstallationMode::SystemWide),
{
    match mode {
        InstallationMode::SystemWide => InstallLayout { config_in_etc: false, copy_dist: false },
        InstallationMode::Custom => InstallLayout { config_in_etc: true, copy_dist: true },
    }
}

/// The architecture named by a distribution label `name-<arch>-<version>`: every piece
/// between the first and the last `-`, joined again with `-`; an error when there are fewer
/// than three pieces or the architecture comes out empty.
pub open spec fn arch_from_label_spec(label: Seq<char>) -> Result<Seq<char>, Seq<char>> {
    let parts = split_char(label, '-');
    let err = "Cannot resolve architecture from dist label "@ + label;
    if parts.len() < 3 {
        Err(err)
    } else {
        let arch = join_with(parts.subrange(1, parts.len() - 1), seq!['-']);
        if arch.len() == 0 { Err(err) } else { Ok(arch) }
    }
}

pub fn arch_from_label(label: &str) -> (r: Result<String, String>)
    ensures
        match arch_from_label_spec(label@) {
            Ok(a) => r is Ok && r->Ok_0@ == a,
            Err(e) => r is Err && r->Err_0@ == e,
        },
{
    let v = chars_of(label);
    let parts = split_exec(&v, '-');
    let ghost pv = chars_views(parts@);
    let mut err = chars_of("Cannot resolve architecture from dist label ");
    append_str(&mut err, label);
    if parts.len() < 3 {
        return Err(string_of(&err));
    }
    let last = parts.len() - 1;
    let mut arch: Vec<char> = Vec::new();
    let mut i: usize = 1;
    while i < last
        invariant
            1 <= i <= last,
            last == parts.len() - 1,
            parts.len() >= 3,
            pv == chars_views(parts@),
            arch@ == join_with(pv.subrange(1, i as int), seq!['-']),
        decreases last - i,
    {
        let ghost a0 = arch@;
        if i > 1 {
            arch.push('-');
        }
        append_chars(&mut arch, &parts[i]);
        proof {
            assert(pv[i as int] == parts@[i as int]@);
            assert(pv.subrange(1, i as int + 1).drop_last() =~= pv.subrange(1, i as int));
            assert(pv.subrange(1, i as int + 1).last() == pv[i as int]);
            if i == 1 {
                assert(pv.subrange(1, 2).len() == 1);
                assert(pv.subrange(1, 1).len() == 0);
                assert(arch@ =~= pv[1]);
            } else {
                assert(arch@ =~= a0 + seq!['-'] + pv[i as int]);
            }
        }
        i = i + 1;
    }
    if arch.len() == 0 {
        return Err(string_of(&err));
    }
    Ok(string_of(&arch))
}

/// The progress message while files are copied: the next file to copy, or writing the
/// configuration once all are copied.
pub open spec fn copy_message_spec(labels: Seq<String>, next: nat) -> Seq<char> {
    if next < labels.len() {
        "Copying "@ + labels[next as int]@ + "..."@
    } else {
        "Writing sysinspect.conf..."@
    }
}

pub fn copy_message(labels: &Vec<String>, next: usize) -> (r: String)
    ensures
        r@ == copy_message_spec(labels@, next as nat),
{
    if next < labels.len() {
        let mut v = chars_of("Copying ");
        append_str(&mut v, labels[next].as_str());
        append_str(&mut v, "...");
        string_of(&v)
    } else {
        string_from("Writing sysinspect.conf...")
    }
}

/// `true` or `false`, as `bool` is displayed.
pub open spec fn bool_text(b: bool) -> Seq<char> {
    if b { "true"@ } else { "false"@ }
}

/// The master configuration written by the wizard, in YAML.
pub open spec fn config_yaml_spec(root: Seq<char>, bind_addr: Seq<char>, bind_port: u32, fs_port: u32, api: bool) -> Seq<char> {
    "root: \""@ + root + "\"\nbind.ip: \""@ + bind_addr + "\"\nbind.port: "@ + dec_text(bind_port as nat)
        + "\nfileserver.bind.ip: \""@ + bind_addr + "\"\nfileserver.bind.port: "@ + dec_text(fs_port as nat)
        + "\nfileserver.models: []\napi.enabled: "@ + bool_text(api) + "\nlog.stream: \""@ + root
        + "/log/sysmaster.standard.log\"\nlog.errors: \""@ + root + "/log/sysmaster.errors.log\"\n"@
}

pub fn config_yaml(root: &str, bind_addr: &str, bind_port: u32, fs_port: u32, api: bool) -> (r: String)
    ensures
        r@ == config_yaml_spec(root@, bind_addr@, bind_port, fs_port, api),
{
    let mut v = chars_of("root: \"");
    append_str(&mut v, root);
    append_str(&mut v, "\"\nbind.ip: \"");
    append_str(&mut v, bind_addr);
    append_str(&mut v, "\"\nbind.port: ");
    push_decimal(&mut v, bind_port as u64);
    append_str(&mut v, "\nfileserver.bind.ip: \"");
    append_str(&mut v, bind_addr);
    append_str(&mut v, "\"\nfileserver.bind.port: ");
    push_decimal(&mut v, fs_port as u64);
    append_str(&mut v, "\nfileserver.models: []\napi.enabled: ");
    append_str(&mut v, if api { "true" } else { "false" });
    append_str(&mut v, "\nlog.stream: \"");
    append_str(&mut v, root);
    append_str(&mut v, "/log/sysmaster.standard.log\"\nlog.errors: \"");
    append_str(&mut v, root);
    append_str(&mut v, "/log/sysmaster.errors.log\"\n");
    proof {
        assert(v@ =~= config_yaml_spec(root@, bind_addr@, bind_port, fs_port, api));
    }
    string_of(&v)
}

/// The closing message of a successful setup, as plain text.
pub open spec fn completion_text(custom: bool, root: Seq<char>, command: Seq<char>) -> Seq<char> {
    if custom {
        "Master installation files were written successfully. Now please quit\nthis UI and go  to the installation target at:\n\n    "@
            + root + "\n\nThen run the following command:\n\n    "@ + command
            + "\n\nThat new instance will then ask whether to start master in daemon mode."@
    } else {
        "Master installation files were written successfully. Now please quit\nthis UI.\n\nThen run the following command:\n\n    "@
            + command + "\n\nThat new instance will then ask whether to start master in daemon mode."@
    }
}

impl SetupRequest {
    /// The command that starts the installed console: the installed path followed by ` --ui`.
    pub fn ui_command(&self) -> (r: String)
        ensures
            r@ == (if self.installation_mode == InstallationMode::Custom {
                join_rel(self.custom_destination@, "bin/sysinspect"@)
            } else {
                "sysinspect"@
            }) + " --ui"@,
    {
        let p = self.installed_sysinspect_path();
        let mut v = chars_of(p.as_str());
        append_str(&mut v, " --ui");
        string_of(&v)
    }

    /// The closing message of a successful setup, see `completion_text`.
    pub fn completion_message(&self) -> (r: String)
        ensures
            r@ == completion_text(
                self.installation_mode == InstallationMode::Custom,
                if self.installation_mode == InstallationMode::SystemWide { "/etc/sysinspect"@ } else { self.custom_destination@ },
                (if self.installation_mode == InstallationMode::Custom {
                    join_rel(self.custom_destination@, "bin/sysinspect"@)
                } else {
                    "sysinspect"@
                }) + " --ui"@,
            ),
    {
        let root = self.root_dir();
        let command = self.ui_command();
        let mut v: Vec<char> = Vec::new();
        if self.installation_mode == InstallationMode::Custom {
            append_str(&mut v, "Master installation files were written successfully. Now please quit\nthis UI and go  to the installation target at:\n\n    ");
            append_str(&mut v, root.as_str());
            append_str(&mut v, "\n\nThen run the following command:\n\n    ");
            append_str(&mut v, command.as_str());
            append_str(&mut v, "\n\nThat new instance will then ask whether to start master in daemon mode.");
        } else {
            append_str(&mut v, "Master installation files were written successfully. Now please quit\nthis UI.\n\nThen run the following command:\n\n    ");
            append_str(&mut v, command.as_str());
            append_str(&mut v, "\n\nThat new instance will then ask whether to start master in daemon mode.");
        }
        proof {
            assert(v@ =~= completion_text(
                self.installation_mode == InstallationMode::Custom,
                root@,
                command@,
            ));
        }
        string_of(&v)
    }

    /// The configuration text for this request, or the message for a port that is not a number.
    pub fn config_text(&self) -> (r: Result<String, String>)
        ensures
            parse_u32_spec(self.bind_port@) is None ==> r is Err && r->Err_0@ == "Invalid bind port"@,
            parse_u32_spec(self.bind_port@) is Some && parse_u32_spec(self.fs_port@) is None ==> r is Err && r->Err_0@
                == "Invalid fileserver port"@,
            parse_u32_spec(self.bind_port@) is Some && parse_u32_spec(self.fs_port@) is Some ==> r is Ok && r->Ok_0@
                == config_yaml_spec(
                if self.installation_mode == InstallationMode::SystemWide { "/etc/sysinspect"@ } else { self.custom_destination@ },
                self.bind_addr@,
                parse_u32_spec(self.bind_port@)->0,
                parse_u32_spec(self.fs_port@)->0,
                self.api_enabled,
            ),
    {
        match self.ports() {
            Ok((bp, fp)) => {
                let root = self.root_dir();
                Ok(config_yaml(root.as_str(), self.bind_addr.as_str(), bp, fp, self.api_enabled))
            },
            Err(e) => Err(e),
        }
    }
}


/// A text cut to `max` characters, its last kept character replaced by `…` when it was cut
/// (`…` alone when at most one character fits).
pub open spec fn truncate_chars_spec(s: Seq<char>, max: nat) -> Seq<char> {
    if s.len() <= max {
        s
    } else if max <= 1 {
        seq!['\u{2026}']
    } else {
        s.take(max - 1).push('\u{2026}')
    }
}

pub fn truncate_chars(s: &str, max: usize) -> (r: String)
    ensures
        r@ == truncate_chars_spec(s@, max as nat),
{
    let v = chars_of(s);
    if v.len() <= max {
        return string_of(&v);
    }
    if max <= 1 {
        let mut w: Vec<char> = Vec::new();
        w.push('\u{2026}');
        assert(w@ =~= seq!['\u{2026}']);
        return string_of(&w);
    }
    let mut w = slice_chars(&v, 0, max - 1);
    w.push('\u{2026}');
    string_of(&w)
}

impl MasterSetupWizard {
    /// Takes a press of Ok: nothing when Ok was not pressed; an error, with the focus back on
    /// the sysmaster field, when no sysmaster binary was chosen; otherwise the wizard hides and
    /// hands out the request.
    pub fn take_submit(&mut self) -> (r: Option<Result<SetupRequest, String>>)
        ensures
            !old(self).ok_pressed ==> r is None && *final(self) == *old(self),
            old(self).ok_pressed ==> !final(self).ok_pressed,
            old(self).ok_pressed && input_text(old(self).sysmaster_path).len() == 0 ==> {
                &&& r matches Some(Err(m)) && m@ == "Sys Master binary must be selected."@
                &&& final(self).focus == SetupFocus::SysMasterPath
                &&& final(self).visible == old(self).visible
            },
            old(self).ok_pressed && input_text(old(self).sysmaster_path).len() > 0 ==> {
                &&& r matches Some(Ok(q)) && q.installation_mode == old(self).installation_mode && q.sysmaster_path@ == input_text(
                    old(self).sysmaster_path,
                ) && q.custom_destination@ == input_text(old(self).custom_destination) && q.bind_addr@ == input_text(
                    old(self).bind_addr,
                ) && q.bind_port@ == input_text(old(self).bind_port) && q.fs_port@ == input_text(old(self).fs_port)
                    && q.api_enabled == old(self).api_enabled
                &&& !final(self).visible
                &&& final(self).focus == old(self).focus
            },
    {
        if !self.ok_pressed {
            return None;
        }
        self.ok_pressed = false;
        if input_value(&self.sysmaster_path).is_empty() {
            self.focus = SetupFocus::SysMasterPath;
            return Some(Err(string_from("Sys Master binary must be selected.")));
        }
        self.visible = false;
        Some(Ok(self.to_request()))
    }
}

} // verus!


