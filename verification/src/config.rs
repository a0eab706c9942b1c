//! The settings of the presence, from `RPCconfig.ini` and the settings page.
use crate::settings_file;
use crate::shell::Shell;
use crate::shell::ShellView;
use crate::text;
use vstd::prelude::*;

verus! {

/// The Discord application that the presence is published under.
pub const DEFAULT_APP_ID: &'static str = "997798118185771059";

/// The settings in force.
pub struct Config {
    /// The Discord application.
    pub app_id: String,
    /// Whether an activity carries buttons.
    pub show_buttons: bool,
    /// Where the button to the title leads: `web`, or anything else for the application.
    pub link_target: String,
    /// Whether nothing is shown outside a title.
    pub disable_in_menu: bool,
    /// Whether nothing is shown while playback is paused.
    pub disable_when_paused: bool,
    /// Seconds between two refreshes.
    pub refresh_interval: u64,
    /// Whether the large image carries a badge.
    pub show_small_image: bool,
    /// Whether the name of the activity and its first line change places.
    pub swap_name_and_title: bool,
    /// The size of a watch party for which none is given.
    pub lobby_max_size: i32,
}

/// What a [`Config`] says.
#[verifier::ext_equal]
pub struct ConfigView {
    pub app_id: Seq<char>,
    pub show_buttons: bool,
    pub link_target: Seq<char>,
    pub disable_in_menu: bool,
    pub disable_when_paused: bool,
    pub refresh_interval: u64,
    pub show_small_image: bool,
    pub swap_name_and_title: bool,
    pub lobby_max_size: i32,
}

impl View for Config {
    type V = ConfigView;

    open spec fn view(&self) -> ConfigView {
        ConfigView {
            app_id: self.app_id@,
            show_buttons: self.show_buttons,
            link_target: self.link_target@,
            disable_in_menu: self.disable_in_menu,
            disable_when_paused: self.disable_when_paused,
            refresh_interval: self.refresh_interval,
            show_small_image: self.show_small_image,
            swap_name_and_title: self.swap_name_and_title,
            lobby_max_size: self.lobby_max_size,
        }
    }
}

impl ConfigView {
    /// Whether the numbers are in their ranges and an application is named.
    pub open spec fn well_formed(self) -> bool {
        &&& self.app_id.len() > 0
        &&& 1 <= self.refresh_interval <= 60
        &&& 2 <= self.lobby_max_size <= 32
    }
}

/// The settings where nothing else is said.
pub open spec fn default_config() -> ConfigView {
    ConfigView {
        app_id: DEFAULT_APP_ID@,
        show_buttons: true,
        link_target: "app"@,
        disable_in_menu: false,
        disable_when_paused: false,
        refresh_interval: 5,
        show_small_image: true,
        swap_name_and_title: false,
        lobby_max_size: 8,
    }
}

impl Default for Config {
    fn default() -> (config: Config)
        ensures
            config@ == default_config(),
    {
        Config {
            app_id: DEFAULT_APP_ID.to_owned(),
            show_buttons: true,
            link_target: "app".to_owned(),
            disable_in_menu: false,
            disable_when_paused: false,
            refresh_interval: 5,
            show_small_image: true,
            swap_name_and_title: false,
            lobby_max_size: 8,
        }
    }
}

impl Clone for Config {
    fn clone(&self) -> (config: Config)
        ensures
            config@ == self@,
    {
        Config {
            app_id: self.app_id.clone(),
            show_buttons: self.show_buttons,
            link_target: self.link_target.clone(),
            disable_in_menu: self.disable_in_menu,
            disable_when_paused: self.disable_when_paused,
            refresh_interval: self.refresh_interval,
            show_small_image: self.show_small_image,
            swap_name_and_title: self.swap_name_and_title,
            lobby_max_size: self.lobby_max_size,
        }
    }
}

/// The value under a section and key, where there is one.
pub open spec fn entry(
    values: Map<(Seq<char>, Seq<char>), Seq<char>>,
    section: Seq<char>,
    key: Seq<char>,
) -> Option<Seq<char>> {
    if values.dom().contains((section, key)) {
        Some(values[(section, key)])
    } else {
        None
    }
}

/// Whether the value is `true`, in any case; where there is none, `fallback`.
pub open spec fn switch(value: Option<Seq<char>>, fallback: bool) -> bool {
    match value {
        Some(v) => text::same_ignoring_case(v, "true"@),
        None => fallback,
    }
}

/// The application that a value names.
pub open spec fn app_id_of(value: Option<Seq<char>>) -> Seq<char> {
    match value {
        Some(v) => if text::trimmed(v).len() > 0 {
            text::trimmed(v)
        } else {
            DEFAULT_APP_ID@
        },
        None => DEFAULT_APP_ID@,
    }
}

/// The link target that a value names.
pub open spec fn link_target_of(value: Option<Seq<char>>) -> Seq<char> {
    match value {
        Some(v) => text::lowercased(text::trimmed(v)),
        None => "app"@,
    }
}

/// The refresh interval that a value spells, kept within 1 and 60; five where
/// it spells none.
pub open spec fn refresh_interval_of(value: Option<Seq<char>>) -> u64 {
    let spelled = match value {
        Some(v) => text::spelled_u64(text::trimmed(v)),
        None => None,
    };
    match spelled {
        Some(n) => if n < 1 {
            1
        } else if n > 60 {
            60
        } else {
            n
        },
        None => 5,
    }
}

/// The party size that a value spells, kept within 2 and 32; eight where it
/// spells none.
pub open spec fn lobby_max_size_of(value: Option<Seq<char>>) -> i32 {
    let spelled = match value {
        Some(v) => text::spelled_i32(text::trimmed(v)),
        None => None,
    };
    match spelled {
        Some(n) => if n < 2 {
            2
        } else if n > 32 {
            32
        } else {
            n
        },
        None => 8,
    }
}

/// The settings that the values of a settings file make.
pub open spec fn config_of(values: Map<(Seq<char>, Seq<char>), Seq<char>>) -> ConfigView {
    ConfigView {
        app_id: app_id_of(entry(values, "Discord"@, "app_id"@)),
        show_buttons: switch(entry(values, "Buttons"@, "show_buttons"@), true),
        link_target: link_target_of(entry(values, "Buttons"@, "link_target"@)),
        disable_in_menu: switch(entry(values, "Activity"@, "disable_in_menu"@), false),
        disable_when_paused: switch(entry(values, "Activity"@, "disable_when_paused"@), false),
        refresh_interval: refresh_interval_of(entry(values, "Activity"@, "refresh_interval"@)),
        show_small_image: switch(entry(values, "Activity"@, "show_small_image"@), true),
        swap_name_and_title: switch(entry(values, "Activity"@, "swap_name_and_title"@), false),
        lobby_max_size: lobby_max_size_of(entry(values, "Lobby"@, "lobby_max_size"@)),
    }
}

/// The settings that the text of a settings file makes. Without a file, and
/// where the text is no INI document, they are the default ones.
pub open spec fn config_of_file(file: Option<Seq<char>>) -> ConfigView {
    match file {
        Some(s) => match settings_file::parsed_ini(settings_file::without_mark(s)) {
            Some(values) => config_of(values),
            None => default_config(),
        },
        None => default_config(),
    }
}

/// The values that a new settings file holds.
pub open spec fn default_values() -> Map<(Seq<char>, Seq<char>), Seq<char>> {
    settings_file::no_values().insert(("Discord"@, "app_id"@), DEFAULT_APP_ID@).insert(
        ("Buttons"@, "show_buttons"@),
        "true"@,
    ).insert(("Buttons"@, "link_target"@), "app"@).insert(
        ("Activity"@, "disable_in_menu"@),
        "false"@,
    ).insert(("Activity"@, "disable_when_paused"@), "false"@).insert(
        ("Activity"@, "refresh_interval"@),
        "5"@,
    ).insert(("Activity"@, "show_small_image"@), "true"@).insert(
        ("Activity"@, "swap_name_and_title"@),
        "false"@,
    ).insert(("Lobby"@, "lobby_max_size"@), "8"@)
}

/// The text of a new settings file, which reads back as the default settings.
pub fn write_default_config() -> (file: String)
    ensures
        settings_file::parsed_ini(file@) == Some(default_values()),
        text::all_ascii(file@),
        config_of_file(Some(file@)) == default_config(),
{
    proof {
        reveal_strlit("Discord");
        reveal_strlit("app_id");
        reveal_strlit("997798118185771059");
        reveal_strlit("Buttons");
        reveal_strlit("show_buttons");
        reveal_strlit("true");
        reveal_strlit("link_target");
        reveal_strlit("app");
        reveal_strlit("Activity");
        reveal_strlit("disable_in_menu");
        reveal_strlit("false");
        reveal_strlit("disable_when_paused");
        reveal_strlit("refresh_interval");
        reveal_strlit("5");
        reveal_strlit("show_small_image");
        reveal_strlit("swap_name_and_title");
        reveal_strlit("Lobby");
        reveal_strlit("lobby_max_size");
        reveal_strlit("8");
    }
    let defaults = Config::default();
    let mut document = settings_file::empty_document();
    settings_file::set_value(&mut document, "Discord", "app_id", defaults.app_id.as_str());
    settings_file::set_value(&mut document, "Buttons", "show_buttons", "true");
    settings_file::set_value(&mut document, "Buttons", "link_target", "app");
    settings_file::set_value(&mut document, "Activity", "disable_in_menu", "false");
    settings_file::set_value(&mut document, "Activity", "disable_when_paused", "false");
    settings_file::set_value(&mut document, "Activity", "refresh_interval", "5");
    settings_file::set_value(&mut document, "Activity", "show_small_image", "true");
    settings_file::set_value(&mut document, "Activity", "swap_name_and_title", "false");
    settings_file::set_value(&mut document, "Lobby", "lobby_max_size", "8");
    let file = settings_file::document_text(&document);
    proof {
        lemma_default_file_reads_back(file@);
    }
    file
}

/// Whether the value under a section and key is `true`, in any case; where
/// there is none, `fallback`.
pub fn bool_at(document: &ini::Ini, section: &str, key: &str, fallback: bool) -> (on: bool)
    ensures
        on == switch(entry(settings_file::ini_entries(*document), section@, key@), fallback),
{
    match settings_file::value_at(document, section, key) {
        Some(v) => text::eq_ignore_ascii_case(v, "true"),
        None => fallback,
    }
}

/// The settings that a document makes.
pub fn config_from_document(document: &ini::Ini) -> (config: Config)
    ensures
        config@ == config_of(settings_file::ini_entries(*document)),
{
    let app_id = match settings_file::value_at(document, "Discord", "app_id") {
        Some(v) => {
            let id = text::trim(v);
            if id.is_empty() {
                DEFAULT_APP_ID.to_owned()
            } else {
                id.to_owned()
            }
        },
        None => DEFAULT_APP_ID.to_owned(),
    };
    let link_target = match settings_file::value_at(document, "Buttons", "link_target") {
        Some(v) => text::to_lowercase(text::trim(v)),
        None => "app".to_owned(),
    };
    let interval: Option<u64> = match settings_file::value_at(document, "Activity", "refresh_interval") {
        Some(v) => text::parse_u64(text::trim(v)),
        None => None,
    };
    let refresh_interval: u64 = match interval {
        Some(n) => if n < 1 {
            1
        } else if n > 60 {
            60
        } else {
            n
        },
        None => 5,
    };
    let size: Option<i32> = match settings_file::value_at(document, "Lobby", "lobby_max_size") {
        Some(v) => text::parse_i32(text::trim(v)),
        None => None,
    };
    let lobby_max_size: i32 = match size {
        Some(n) => if n < 2 {
            2
        } else if n > 32 {
            32
        } else {
            n
        },
        None => 8,
    };
    Config {
        app_id,
        show_buttons: bool_at(document, "Buttons", "show_buttons", true),
        link_target,
        disable_in_menu: bool_at(document, "Activity", "disable_in_menu", false),
        disable_when_paused: bool_at(document, "Activity", "disable_when_paused", false),
        refresh_interval,
        show_small_image: bool_at(document, "Activity", "show_small_image", true),
        swap_name_and_title: bool_at(document, "Activity", "swap_name_and_title", false),
        lobby_max_size,
    }
}

/// The settings that the text of the settings file makes, or the default ones
/// where there is no such text or it cannot be parsed.
pub fn load_or_create_config(file: Option<&str>) -> (config: Config)
    ensures
        config@ == config_of_file(
            match file {
                Some(s) => Some(s@),
                None => None,
            },
        ),
{
    match file {
        Some(s) => match settings_file::read_document(s) {
            Some(document) => config_from_document(&document),
            None => Config::default(),
        },
        None => Config::default(),
    }
}

/// The settings in force: those of the file, with what the settings page asks
/// for laid over them.
pub open spec fn effective(base: ConfigView, shell: ShellView) -> ConfigView {
    ConfigView {
        app_id: if shell.requested_app_id.len() > 0 {
            shell.requested_app_id
        } else {
            base.app_id
        },
        disable_when_paused: base.disable_when_paused || !shell.show_paused,
        disable_in_menu: base.disable_in_menu || !shell.show_menu,
        ..base
    }
}

/// Lays what the settings page asks for over the settings of the file.
pub fn effective_config(base: &Config, shell: &Shell) -> (config: Config)
    ensures
        config@ == effective(base@, shell@),
{
    let mut config = base.clone();
    if !shell.requested_app_id.as_str().is_empty() {
        config.app_id = shell.requested_app_id.clone();
    }
    if !shell.show_paused {
        config.disable_when_paused = true;
    }
    if !shell.show_menu {
        config.disable_in_menu = true;
    }
    config
}

proof fn lemma_trimmed_unchanged(s: Seq<char>)
    requires
        s.len() > 0,
        !text::white_space(s[0]),
        !text::white_space(s.last()),
    ensures
        text::trimmed(s) == s,
{
}

/// A new settings file names every setting, with its default.
pub proof fn law_new_file_names_every_setting()
    ensures
        ({
            let v = default_values();
            &&& entry(v, "Discord"@, "app_id"@) == Some(DEFAULT_APP_ID@)
            &&& entry(v, "Buttons"@, "show_buttons"@) == Some("true"@)
            &&& entry(v, "Buttons"@, "link_target"@) == Some("app"@)
            &&& entry(v, "Activity"@, "disable_in_menu"@) == Some("false"@)
            &&& entry(v, "Activity"@, "disable_when_paused"@) == Some("false"@)
            &&& entry(v, "Activity"@, "refresh_interval"@) == Some("5"@)
            &&& entry(v, "Activity"@, "show_small_image"@) == Some("true"@)
            &&& entry(v, "Activity"@, "swap_name_and_title"@) == Some("false"@)
            &&& entry(v, "Lobby"@, "lobby_max_size"@) == Some("8"@)
        }),
{
    reveal_strlit("Discord");
    reveal_strlit("Buttons");
    reveal_strlit("Activity");
    reveal_strlit("Lobby");
    reveal_strlit("app_id");
    reveal_strlit("show_buttons");
    reveal_strlit("link_target");
    reveal_strlit("disable_in_menu");
    reveal_strlit("disable_when_paused");
    reveal_strlit("refresh_interval");
    reveal_strlit("show_small_image");
    reveal_strlit("swap_name_and_title");
    reveal_strlit("lobby_max_size");
    assert("Discord"@[0] != "Buttons"@[0]);
    assert("Discord"@.len() != "Activity"@.len());
    assert("Discord"@.len() != "Lobby"@.len());
    assert("Buttons"@.len() != "Activity"@.len());
    assert("Buttons"@.len() != "Lobby"@.len());
    assert("Activity"@.len() != "Lobby"@.len());
    assert("show_buttons"@.len() != "link_target"@.len());
    assert("disable_in_menu"@.len() != "disable_when_paused"@.len());
    assert("disable_in_menu"@.len() != "refresh_interval"@.len());
    assert("disable_in_menu"@.len() != "show_small_image"@.len());
    assert("disable_in_menu"@.len() != "swap_name_and_title"@.len());
    assert("disable_when_paused"@.len() != "refresh_interval"@.len());
    assert("disable_when_paused"@.len() != "show_small_image"@.len());
    assert("disable_when_paused"@[0] != "swap_name_and_title"@[0]);
    assert("refresh_interval"@[0] != "show_small_image"@[0]);
    assert("refresh_interval"@.len() != "swap_name_and_title"@.len());
    assert("show_small_image"@.len() != "swap_name_and_title"@.len());
}

proof fn lemma_default_file_reads_back(file: Seq<char>)
    requires
        settings_file::parsed_ini(file) == Some(default_values()),
        text::all_ascii(file),
    ensures
        config_of_file(Some(file)) == default_config(),
{
    law_new_file_names_every_setting();
    reveal_strlit("997798118185771059");
    reveal_strlit("true");
    reveal_strlit("false");
    reveal_strlit("app");
    reveal_strlit("5");
    reveal_strlit("8");
    assert(settings_file::without_mark(file) == file);
    lemma_trimmed_unchanged(DEFAULT_APP_ID@);
    lemma_trimmed_unchanged("app"@);
    lemma_trimmed_unchanged("5"@);
    lemma_trimmed_unchanged("8"@);
    assert(text::lowercased("app"@) == "app"@);
    assert(text::number("5"@.drop_last()) == 0);
    assert(text::number("8"@.drop_last()) == 0);
    assert(text::number("5"@) == 5);
    assert(text::number("8"@) == 8);
    assert(text::all_digits("5"@));
    assert(text::all_digits("8"@));
    assert(text::spelled_u64("5"@) == Some(5u64));
    assert(text::spelled_i32("8"@) == Some(8i32));
}

/// Whatever the settings file holds, the settings that it makes are in their ranges.
pub proof fn law_settings_in_range(file: Option<Seq<char>>)
    ensures
        config_of_file(file).well_formed(),
{
    reveal_strlit("997798118185771059");
}

/// The settings page can hide the presence where the file would show it, and
/// never the other way round. All other settings but the application are those
/// of the file.
pub proof fn law_settings_page_only_restricts(base: ConfigView, shell: ShellView)
    ensures
        base.disable_in_menu ==> effective(base, shell).disable_in_menu,
        base.disable_when_paused ==> effective(base, shell).disable_when_paused,
        !shell.show_menu ==> effective(base, shell).disable_in_menu,
        !shell.show_paused ==> effective(base, shell).disable_when_paused,
        shell.show_menu && shell.show_paused && shell.requested_app_id.len() == 0 ==> effective(
            base,
            shell,
        ) == base,
        base.well_formed() ==> effective(base, shell).well_formed(),
{
}

/// A switch of the settings page that is off does what the entry of the file
/// does.
pub proof fn law_settings_page_switches_like_file(base: ConfigView, shell: ShellView)
    ensures
        effective(base, (ShellView { show_menu: false, ..shell })) == effective(
            (ConfigView { disable_in_menu: true, ..base }),
            shell,
        ),
        effective(base, (ShellView { show_paused: false, ..shell })) == effective(
            (ConfigView { disable_when_paused: true, ..base }),
            shell,
        ),
{
}

/// The settings are those of the file, entry by entry: a switch is on where its
/// entry is `true` in any case, and as by default where it has none; a number is
/// the one that its entry spells, moved into its range, and the default where it
/// spells none; a text is that of its entry without white space around it.
pub proof fn law_settings_are_those_of_file(values: Map<(Seq<char>, Seq<char>), Seq<char>>)
    ensures
        ({
            let config = config_of(values);
            let app_id = ("Discord"@, "app_id"@);
            let link = ("Buttons"@, "link_target"@);
            &&& values.dom().contains(app_id) && text::trimmed(values[app_id]).len() > 0
                ==> config.app_id == text::trimmed(values[app_id])
            &&& !values.dom().contains(app_id) || text::trimmed(values[app_id]).len() == 0
                ==> config.app_id == "997798118185771059"@
            &&& values.dom().contains(link) ==> config.link_target == text::lowercased(
                text::trimmed(values[link]),
            )
            &&& !values.dom().contains(link) ==> config.link_target == "app"@
            &&& config.show_buttons == is_on(values, ("Buttons"@, "show_buttons"@), true)
            &&& config.disable_in_menu == is_on(values, ("Activity"@, "disable_in_menu"@), false)
            &&& config.disable_when_paused == is_on(
                values,
                ("Activity"@, "disable_when_paused"@),
                false,
            )
            &&& config.show_small_image == is_on(values, ("Activity"@, "show_small_image"@), true)
            &&& config.swap_name_and_title == is_on(
                values,
                ("Activity"@, "swap_name_and_title"@),
                false,
            )
        }),
{
    reveal_strlit("true");
    lemma_true_in_any_case(values, ("Buttons"@, "show_buttons"@));
    lemma_true_in_any_case(values, ("Activity"@, "disable_in_menu"@));
    lemma_true_in_any_case(values, ("Activity"@, "disable_when_paused"@));
    lemma_true_in_any_case(values, ("Activity"@, "show_small_image"@));
    lemma_true_in_any_case(values, ("Activity"@, "swap_name_and_title"@));
}

/// Whether the entry of a switch has the four letters of `true`, in either case;
/// without an entry, what it is by default.
pub open spec fn is_on(
    values: Map<(Seq<char>, Seq<char>), Seq<char>>,
    name: (Seq<char>, Seq<char>),
    otherwise: bool,
) -> bool {
    if values.dom().contains(name) {
        let v = values[name];
        &&& v.len() == 4
        &&& v[0] == 't' || v[0] == 'T'
        &&& v[1] == 'r' || v[1] == 'R'
        &&& v[2] == 'u' || v[2] == 'U'
        &&& v[3] == 'e' || v[3] == 'E'
    } else {
        otherwise
    }
}

proof fn lemma_true_in_any_case(
    values: Map<(Seq<char>, Seq<char>), Seq<char>>,
    name: (Seq<char>, Seq<char>),
)
    ensures
        values.dom().contains(name) ==> text::same_ignoring_case(values[name], "true"@) == is_on(
            values,
            name,
            true,
        ),
{
    reveal_strlit("true");
    let v = values[name];
    text::law_case_is_ignored(v, "true"@);
    if v.len() == 4 {
        let a: char = v[0];
        let b: char = v[1];
        let c: char = v[2];
        let d: char = v[3];
        assert("true"@[0] == 't' && "true"@[1] == 'r' && "true"@[2] == 'u' && "true"@[3] == 'e');
        if is_on(values, name, true) && values.dom().contains(name) {
            assert forall|i: int| 0 <= i < 4 implies {
                ||| #[trigger] v[i] == "true"@[i]
                ||| 65 <= v[i] as u32 <= 90 && "true"@[i] as u32 == v[i] as u32 + 32
                ||| 65 <= "true"@[i] as u32 <= 90 && v[i] as u32 == "true"@[i] as u32 + 32
            } by {
                assert(i == 0 || i == 1 || i == 2 || i == 3);
            }
        }
    }
}

/// The seconds between two refreshes are those that the entry spells, or one
/// where that is zero, sixty where it spells more, and five where it
/// spells no number or there is no entry.
pub proof fn law_refresh_interval_is_that_of_file(
    values: Map<(Seq<char>, Seq<char>), Seq<char>>,
    n: u64,
)
    ensures
        ({
            let name = ("Activity"@, "refresh_interval"@);
            let interval = config_of(values).refresh_interval;
            &&& !values.dom().contains(name) ==> interval == 5
            &&& values.dom().contains(name) && text::spelled_u64(text::trimmed(values[name]))
                is None ==> interval == 5
            &&& values.dom().contains(name) && text::spelled_u64(text::trimmed(values[name]))
                == Some(n) ==> {
                &&& 1 <= n <= 60 ==> interval == n
                &&& n == 0 ==> interval == 1
                &&& n > 60 ==> interval == 60
            }
        }),
{
}

/// The size of a watch party is that which the entry spells, or two where it
/// spells less, thirty-two where it spells more, and eight where it spells no
/// number or there is no entry.
pub proof fn law_lobby_size_is_that_of_file(
    values: Map<(Seq<char>, Seq<char>), Seq<char>>,
    n: i32,
)
    ensures
        ({
            let name = ("Lobby"@, "lobby_max_size"@);
            let size = config_of(values).lobby_max_size;
            &&& !values.dom().contains(name) ==> size == 8
            &&& values.dom().contains(name) && text::spelled_i32(text::trimmed(values[name]))
                is None ==> size == 8
            &&& values.dom().contains(name) && text::spelled_i32(text::trimmed(values[name]))
                == Some(n) ==> {
                &&& 2 <= n <= 32 ==> size == n
                &&& n < 2 ==> size == 2
                &&& n > 32 ==> size == 32
            }
        }),
{
}

/// The settings of a file that is no INI document, and of none, are the default
/// ones; a byte order mark in front of a document changes nothing.
pub proof fn law_broken_file_is_passed_over(file: Seq<char>)
    ensures
        config_of_file(None) == default_config(),
        file.len() == 0 || file[0] != '\u{feff}' ==> {
            &&& settings_file::parsed_ini(file) is None ==> config_of_file(Some(file))
                == default_config()
            &&& settings_file::parsed_ini(file) matches Some(values) ==> config_of_file(Some(file))
                == config_of(values)
            &&& config_of_file(Some(seq!['\u{feff}'] + file)) == config_of_file(Some(file))
        },
{
    assert((seq!['\u{feff}'] + file).skip(1) =~= file);
}

/// The application that the settings page asks for, where it asks for one, comes
/// before that of the file; a pause or a menu is hidden where the file or the
/// page says so; all else is as the file says.
pub proof fn law_settings_in_force(base: ConfigView, shell: ShellView)
    ensures
        ({
            let config = effective(base, shell);
            &&& shell.requested_app_id.len() > 0 ==> config.app_id == shell.requested_app_id
            &&& shell.requested_app_id.len() == 0 ==> config.app_id == base.app_id
            &&& config.disable_when_paused <==> (base.disable_when_paused || !shell.show_paused)
            &&& config.disable_in_menu <==> (base.disable_in_menu || !shell.show_menu)
            &&& config.show_buttons == base.show_buttons
            &&& config.link_target == base.link_target
            &&& config.refresh_interval == base.refresh_interval
            &&& config.show_small_image == base.show_small_image
            &&& config.swap_name_and_title == base.swap_name_and_title
            &&& config.lobby_max_size == base.lobby_max_size
        }),
{
}

/// A file without entries makes the default settings.
pub proof fn law_empty_file_makes_defaults()
    ensures
        config_of(settings_file::no_values()) == default_config(),
        default_config().well_formed(),
        default_config().show_buttons,
        default_config().show_small_image,
        !default_config().disable_in_menu,
        !default_config().disable_when_paused,
        !default_config().swap_name_and_title,
{
    reveal_strlit("997798118185771059");
}

} // verus!
