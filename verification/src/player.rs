//! The player: the properties that it starts with, what it is asked to do, what
//! it reports, and the settings that are given to it anew with each file.
use crate::double::Double;
use crate::json::Json;
use crate::json::JsonView;
use crate::shell;
use crate::shell::Effect;
use crate::shell::PropertyData;
use crate::shell::Shell;
use crate::shell::ShellView;
use crate::text;
use vstd::prelude::*;
use vstd::string::*;

verus! {

/// A command of the player.
#[derive(Debug)]
pub enum MpvCmd {
    /// Play a file.
    Loadfile,
    /// Any other, by its name.
    Other(String),
}

/// A command with up to four arguments.
#[derive(Debug)]
pub enum CmdVal {
    Single((MpvCmd,)),
    Double(MpvCmd, String),
    Tripple(MpvCmd, String, String),
    Quadruple(MpvCmd, String, String, String),
    Quintuple(MpvCmd, String, String, String, String),
}

/// A property to watch, by the kind of its value.
#[derive(Debug)]
pub enum PropKey {
    Bool(String),
    Int(String),
    Fp(String),
    Str(String),
}

/// A value to set a property to.
#[derive(Debug)]
pub enum PropVal {
    Bool(bool),
    Num(Double),
    Str(String),
}

/// What a [`PropVal`] says.
#[verifier::ext_equal]
pub enum PropValView {
    Bool(bool),
    Num(Double),
    Str(Seq<char>),
}

impl View for PropVal {
    type V = PropValView;

    open spec fn view(&self) -> PropValView {
        match *self {
            PropVal::Bool(b) => PropValView::Bool(b),
            PropVal::Num(n) => PropValView::Num(n),
            PropVal::Str(s) => PropValView::Str(s@),
        }
    }
}

/// What a message asks for.
#[derive(Clone, Copy, Debug, PartialEq, Eq, Structural)]
pub enum InMsgFn {
    MpvObserveProp,
    MpvSetProp,
    MpvCommand,
}

/// What a message asks it with.
#[derive(Debug)]
pub enum InMsgArgs {
    ObProp(PropKey),
    StProp(String, PropVal),
    Cmd(CmdVal),
}

/// A message to the player.
#[derive(Debug)]
pub struct InMsg(pub InMsgFn, pub InMsgArgs);

/// The kind of a property's value.
#[derive(Clone, Copy, Debug, PartialEq, Eq, Structural)]
pub enum Format {
    String,
    Flag,
    Int64,
    Double,
}

/// What is asked of the player.
#[derive(Debug)]
pub enum Request {
    /// Set a property.
    SetProperty { name: String, value: PropVal },
    /// Watch a property.
    ObserveProperty { name: String, format: Format },
    /// Carry out a command.
    Command { name: String, args: Vec<String> },
    /// Nothing: the message makes no sense.
    Unsupported,
}

/// What a list of texts says.
pub open spec fn strings(list: Seq<String>) -> Seq<Seq<char>> {
    Seq::new(list.len(), |i: int| list[i]@)
}

/// What a [`Request`] says.
#[verifier::ext_equal]
pub enum RequestView {
    SetProperty { name: Seq<char>, value: PropValView },
    ObserveProperty { name: Seq<char>, format: Format },
    Command { name: Seq<char>, args: Seq<Seq<char>> },
    Unsupported,
}

impl View for Request {
    type V = RequestView;

    open spec fn view(&self) -> RequestView {
        match *self {
            Request::SetProperty { name, value } => RequestView::SetProperty { name: name@, value: value@ },
            Request::ObserveProperty { name, format } => RequestView::ObserveProperty { name: name@, format },
            Request::Command { name, args } => RequestView::Command {
                name: name@,
                args: strings(args@),
            },
            Request::Unsupported => RequestView::Unsupported,
        }
    }
}

/// What a list of requests says.
pub open spec fn requests_view(requests: Seq<Request>) -> Seq<RequestView> {
    Seq::new(requests.len(), |i: int| requests[i]@)
}

/// The subtitle properties that were last set. They are set anew with each
/// file, which would otherwise take the player's own.
#[derive(Debug)]
pub struct LastSubtitleStyles {
    pub override_mode: Option<String>,
    pub scale: Option<Double>,
    pub pos: Option<Double>,
    pub delay: Option<Double>,
    pub color: Option<String>,
    pub back_color: Option<String>,
    pub border_color: Option<String>,
}

/// What a [`LastSubtitleStyles`] says.
#[verifier::ext_equal]
pub struct StylesView {
    pub override_mode: Option<Seq<char>>,
    pub scale: Option<Double>,
    pub pos: Option<Double>,
    pub delay: Option<Double>,
    pub color: Option<Seq<char>>,
    pub back_color: Option<Seq<char>>,
    pub border_color: Option<Seq<char>>,
}

impl View for LastSubtitleStyles {
    type V = StylesView;

    open spec fn view(&self) -> StylesView {
        StylesView {
            override_mode: text::optional(self.override_mode),
            scale: self.scale,
            pos: self.pos,
            delay: self.delay,
            color: text::optional(self.color),
            back_color: text::optional(self.back_color),
            border_color: text::optional(self.border_color),
        }
    }
}

/// No subtitle property.
pub open spec fn no_styles() -> StylesView {
    StylesView {
        override_mode: None,
        scale: None,
        pos: None,
        delay: None,
        color: None,
        back_color: None,
        border_color: None,
    }
}

impl LastSubtitleStyles {
    /// No subtitle property.
    pub fn new() -> (styles: LastSubtitleStyles)
        ensures
            styles@ == no_styles(),
    {
        LastSubtitleStyles {
            override_mode: None,
            scale: None,
            pos: None,
            delay: None,
            color: None,
            back_color: None,
            border_color: None,
        }
    }
}

/// What is set anew with each file.
#[derive(Debug)]
pub struct PlayerMemory {
    /// The shaders that were last set.
    pub glsl_shaders: String,
    pub styles: LastSubtitleStyles,
}

/// What a [`PlayerMemory`] holds.
#[verifier::ext_equal]
pub struct MemoryView {
    pub glsl_shaders: Seq<char>,
    pub styles: StylesView,
}

impl View for PlayerMemory {
    type V = MemoryView;

    open spec fn view(&self) -> MemoryView {
        MemoryView { glsl_shaders: self.glsl_shaders@, styles: self.styles@ }
    }
}

/// A memory in which nothing has been set.
pub open spec fn blank() -> MemoryView {
    MemoryView { glsl_shaders: Seq::empty(), styles: no_styles() }
}

impl PlayerMemory {
    /// A memory in which nothing has been set.
    pub fn new() -> (memory: PlayerMemory)
        ensures
            memory@ == blank(),
    {
        PlayerMemory { glsl_shaders: String::new(), styles: LastSubtitleStyles::new() }
    }
}

/// The command of a command with arguments.
pub open spec fn cmd_head(cmd: CmdVal) -> MpvCmd {
    match cmd {
        CmdVal::Single((head,)) => head,
        CmdVal::Double(head, _) => head,
        CmdVal::Tripple(head, _, _) => head,
        CmdVal::Quadruple(head, _, _, _) => head,
        CmdVal::Quintuple(head, _, _, _, _) => head,
    }
}

/// The arguments of a command.
pub open spec fn cmd_args(cmd: CmdVal) -> Seq<Seq<char>> {
    match cmd {
        CmdVal::Single(_) => Seq::empty(),
        CmdVal::Double(_, a) => seq![a@],
        CmdVal::Tripple(_, a, b) => seq![a@, b@],
        CmdVal::Quadruple(_, a, b, c) => seq![a@, b@, c@],
        CmdVal::Quintuple(_, a, b, c, d) => seq![a@, b@, c@, d@],
    }
}

/// The name of a command.
pub open spec fn cmd_name(cmd: MpvCmd) -> Seq<char> {
    match cmd {
        MpvCmd::Loadfile => "loadfile"@,
        MpvCmd::Other(name) => name@,
    }
}

/// A text in quotation marks.
pub open spec fn quoted(s: Seq<char>) -> Seq<char> {
    "\""@ + s + "\""@
}

/// The request for a command. Its arguments go in quotation marks.
pub open spec fn command_of(cmd: CmdVal) -> RequestView {
    RequestView::Command {
        name: cmd_name(cmd_head(cmd)),
        args: cmd_args(cmd).map_values(|a: Seq<char>| quoted(a)),
    }
}

/// Whether a command plays a file.
pub fn cmd_is_loadfile(cmd: &CmdVal) -> (yes: bool)
    ensures
        yes == (cmd_head(*cmd) is Loadfile),
{
    match cmd {
        CmdVal::Single((MpvCmd::Loadfile,)) => true,
        CmdVal::Double(MpvCmd::Loadfile, _) => true,
        CmdVal::Tripple(MpvCmd::Loadfile, _, _) => true,
        CmdVal::Quadruple(MpvCmd::Loadfile, _, _, _) => true,
        CmdVal::Quintuple(MpvCmd::Loadfile, _, _, _, _) => true,
        _ => false,
    }
}

fn name_text(cmd: &MpvCmd) -> (name: String)
    ensures
        name@ == cmd_name(*cmd),
{
    match cmd {
        MpvCmd::Loadfile => "loadfile".to_owned(),
        MpvCmd::Other(name) => name.clone(),
    }
}

fn quote(s: &String) -> (text: String)
    ensures
        text@ == quoted(s@),
{
    "\"".to_owned().concat(s.as_str()).concat("\"")
}

/// The request for a command.
pub fn command_request(cmd: &CmdVal) -> (request: Request)
    ensures
        request@ == command_of(*cmd),
{
    let mut args: Vec<String> = Vec::new();
    let name = match cmd {
        CmdVal::Quintuple(name, arg1, arg2, arg3, arg4) => {
            args.push(quote(arg1));
            args.push(quote(arg2));
            args.push(quote(arg3));
            args.push(quote(arg4));
            name_text(name)
        },
        CmdVal::Quadruple(name, arg1, arg2, arg3) => {
            args.push(quote(arg1));
            args.push(quote(arg2));
            args.push(quote(arg3));
            name_text(name)
        },
        CmdVal::Tripple(name, arg1, arg2) => {
            args.push(quote(arg1));
            args.push(quote(arg2));
            name_text(name)
        },
        CmdVal::Double(name, arg1) => {
            args.push(quote(arg1));
            name_text(name)
        },
        CmdVal::Single((name,)) => name_text(name),
    };
    proof {
        assert(strings(args@) =~= cmd_args(*cmd).map_values(|a: Seq<char>| quoted(a)));
    }
    Request::Command { name, args }
}

/// The request to set a property.
pub open spec fn setting(name: Seq<char>, value: PropValView) -> RequestView {
    RequestView::SetProperty { name, value }
}

/// The request to set a property to a number, where there is one.
pub open spec fn number_setting(name: Seq<char>, value: Option<Double>) -> Seq<RequestView> {
    match value {
        Some(n) => seq![setting(name, PropValView::Num(n))],
        None => Seq::empty(),
    }
}

/// The request to set a property to a text, where there is one.
pub open spec fn text_setting(name: Seq<char>, value: Option<Seq<char>>) -> Seq<RequestView> {
    match value {
        Some(s) => seq![setting(name, PropValView::Str(s))],
        None => Seq::empty(),
    }
}

/// The requests that set the volume as it was stored, a level kept within the
/// range from 0 to 200.
pub open spec fn stored_volume(volume: JsonView) -> Seq<RequestView> {
    let level = match volume.number_at("level"@) {
        Some(n) => Some(n.kept_within_200()),
        None => None,
    };
    let muted = match volume.truth_at("muted"@) {
        Some(b) => seq![setting("mute"@, PropValView::Bool(b))],
        None => Seq::empty(),
    };
    number_setting("volume"@, level) + muted
}

/// The requests that set the subtitle properties anew.
pub open spec fn stored_styles(styles: StylesView) -> Seq<RequestView> {
    text_setting("sub-ass-override"@, styles.override_mode) + number_setting(
        "sub-scale"@,
        styles.scale,
    ) + number_setting("sub-pos"@, styles.pos) + number_setting("sub-delay"@, styles.delay)
        + text_setting("sub-color"@, styles.color) + text_setting(
        "sub-back-color"@,
        styles.back_color,
    ) + text_setting("sub-border-color"@, styles.border_color)
}

/// The request that sets the shaders anew, or takes them away where none were
/// set.
pub open spec fn stored_shaders(glsl_shaders: Seq<char>) -> Seq<RequestView> {
    seq![setting("glsl-shaders"@, PropValView::Str(glsl_shaders))]
}

fn push_setting(requests: &mut Vec<Request>, name: &str, value: PropVal)
    ensures
        requests_view(final(requests)@) == requests_view(old(requests)@).push(
            setting(name@, value@),
        ),
{
    requests.push(Request::SetProperty { name: name.to_owned(), value });
    proof {
        assert(requests_view(requests@) =~= requests_view(old(requests)@).push(
            setting(name@, value@),
        ));
    }
}

fn push_number(requests: &mut Vec<Request>, name: &str, value: Option<Double>)
    ensures
        requests_view(final(requests)@) == requests_view(old(requests)@) + number_setting(
            name@,
            value,
        ),
{
    if let Some(n) = value {
        push_setting(requests, name, PropVal::Num(n));
    }
    proof {
        assert(requests_view(requests@) =~= requests_view(old(requests)@) + number_setting(
            name@,
            value,
        ));
    }
}

fn push_text(requests: &mut Vec<Request>, name: &str, value: &Option<String>)
    ensures
        requests_view(final(requests)@) == requests_view(old(requests)@) + text_setting(
            name@,
            text::optional(*value),
        ),
{
    if let Some(s) = value {
        push_setting(requests, name, PropVal::Str(s.clone()));
    }
    proof {
        assert(requests_view(requests@) =~= requests_view(old(requests)@) + text_setting(
            name@,
            text::optional(*value),
        ));
    }
}

/// Adds the requests that set the volume as it was stored.
pub fn apply_stored_player_volume(requests: &mut Vec<Request>, volume: &Json)
    ensures
        requests_view(final(requests)@) == requests_view(old(requests)@) + stored_volume(volume@),
{
    let level = match volume.double_at("level") {
        Some(n) => Some(n.clamp_to_200()),
        None => None,
    };
    push_number(requests, "volume", level);
    if let Some(muted) = volume.bool_at("muted") {
        push_setting(requests, "mute", PropVal::Bool(muted));
    }
    proof {
        assert(requests_view(requests@) =~= requests_view(old(requests)@) + stored_volume(
            volume@,
        ));
    }
}

/// Adds the request that sets the shaders anew.
pub fn apply_stored_glsl_shaders(requests: &mut Vec<Request>, memory: &PlayerMemory)
    ensures
        requests_view(final(requests)@) == requests_view(old(requests)@) + stored_shaders(
            memory@.glsl_shaders,
        ),
{
    push_setting(requests, "glsl-shaders", PropVal::Str(memory.glsl_shaders.clone()));
    proof {
        assert(requests_view(requests@) =~= requests_view(old(requests)@) + stored_shaders(
            memory@.glsl_shaders,
        ));
    }
}

/// Adds the requests that set the subtitle properties anew.
pub fn apply_stored_subtitle_styles(requests: &mut Vec<Request>, styles: &LastSubtitleStyles)
    ensures
        requests_view(final(requests)@) == requests_view(old(requests)@) + stored_styles(styles@),
{
    push_text(requests, "sub-ass-override", &styles.override_mode);
    push_number(requests, "sub-scale", styles.scale);
    push_number(requests, "sub-pos", styles.pos);
    push_number(requests, "sub-delay", styles.delay);
    push_text(requests, "sub-color", &styles.color);
    push_text(requests, "sub-back-color", &styles.back_color);
    push_text(requests, "sub-border-color", &styles.border_color);
    proof {
        assert(requests_view(requests@) =~= requests_view(old(requests)@) + stored_styles(
            styles@,
        ));
    }
}

/// The subtitle properties after one has been set to a number.
pub open spec fn with_number(styles: StylesView, name: Seq<char>, value: Double) -> StylesView {
    if name == "sub-scale"@ {
        StylesView { scale: Some(value), ..styles }
    } else if name == "sub-pos"@ {
        StylesView { pos: Some(value), ..styles }
    } else if name == "sub-delay"@ {
        StylesView { delay: Some(value), ..styles }
    } else {
        styles
    }
}

/// The subtitle properties after one has been set to a text. The mode `no`,
/// which would have the others ignored, is not remembered.
pub open spec fn with_text(styles: StylesView, name: Seq<char>, value: Seq<char>) -> StylesView {
    if name == "sub-ass-override"@ && value != "no"@ {
        StylesView { override_mode: Some(value), ..styles }
    } else if name == "sub-color"@ {
        StylesView { color: Some(value), ..styles }
    } else if name == "sub-back-color"@ {
        StylesView { back_color: Some(value), ..styles }
    } else if name == "sub-border-color"@ {
        StylesView { border_color: Some(value), ..styles }
    } else {
        styles
    }
}

/// Remembers the shaders that were last set.
pub fn remember_glsl_shaders(memory: &mut PlayerMemory, value: &str)
    ensures
        final(memory)@ == (MemoryView { glsl_shaders: value@, ..old(memory)@ }),
{
    memory.glsl_shaders = value.to_owned();
}

/// Remembers a subtitle property that was set to a number.
pub fn remember_subtitle_f64(memory: &mut PlayerMemory, name: &str, value: Double)
    ensures
        final(memory)@ == (MemoryView {
            styles: with_number(old(memory)@.styles, name@, value),
            ..old(memory)@
        }),
{
    if text::same(name, "sub-scale") {
        memory.styles.scale = Some(value);
    } else if text::same(name, "sub-pos") {
        memory.styles.pos = Some(value);
    } else if text::same(name, "sub-delay") {
        memory.styles.delay = Some(value);
    }
}

/// Remembers a subtitle property that was set to a text.
pub fn remember_subtitle_str(memory: &mut PlayerMemory, name: &str, value: &str)
    ensures
        final(memory)@ == (MemoryView {
            styles: with_text(old(memory)@.styles, name@, value@),
            ..old(memory)@
        }),
{
    if text::same(name, "sub-ass-override") && !text::same(value, "no") {
        memory.styles.override_mode = Some(value.to_owned());
    } else if text::same(name, "sub-color") {
        memory.styles.color = Some(value.to_owned());
    } else if text::same(name, "sub-back-color") {
        memory.styles.back_color = Some(value.to_owned());
    } else if text::same(name, "sub-border-color") {
        memory.styles.border_color = Some(value.to_owned());
    }
}

/// The value that a property is set to where a text is asked for: the list of
/// video outputs gets one more, which is fallen back to.
pub open spec fn text_value(name: Seq<char>, value: Seq<char>) -> Seq<char> {
    if name != "vo"@ {
        value
    } else if value.len() > 0 && value.last() != ',' {
        value + ","@ + "gpu-next,"@
    } else {
        value + "gpu-next,"@
    }
}

fn value_to_set(name: &str, value: &String) -> (text: String)
    ensures
        text@ == text_value(name@, value@),
{
    proof {
        reveal_strlit(",");
    }
    if !text::same(name, "vo") {
        return value.clone();
    }
    let listed = value.clone();
    if !value.as_str().is_empty() && !text::ends_with(value.as_str(), ",") {
        proof {
            if value@.last() == ',' {
                assert(value@.skip(value@.len() - 1) =~= ","@);
            }
        }
        listed.concat(",").concat("gpu-next,")
    } else {
        proof {
            if value@.len() > 0 {
                assert(value@.skip(value@.len() - 1)[0] == value@.last());
            }
        }
        listed.concat("gpu-next,")
    }
}

/// What is remembered after a property has been set.
pub open spec fn with_setting(memory: MemoryView, name: Seq<char>, value: PropVal) -> MemoryView {
    match value {
        PropVal::Bool(_) => memory,
        PropVal::Num(n) => MemoryView { styles: with_number(memory.styles, name, n), ..memory },
        PropVal::Str(s) => {
            let set = text_value(name, s@);
            MemoryView {
                glsl_shaders: if name == "glsl-shaders"@ {
                    set
                } else {
                    memory.glsl_shaders
                },
                styles: with_text(memory.styles, name, set),
            }
        },
    }
}

/// The value that a property is set to.
pub open spec fn set_value_of(name: Seq<char>, value: PropVal) -> PropValView {
    match value {
        PropVal::Str(s) => PropValView::Str(text_value(name, s@)),
        _ => value@,
    }
}

/// What is asked of the player for a command. Before a file is played, the
/// volume and the subtitle properties are set; behind it, the shaders and the
/// subtitle properties.
pub open spec fn command_requests(
    memory: MemoryView,
    cmd: CmdVal,
    volume: JsonView,
) -> Seq<RequestView> {
    if cmd_head(cmd) is Loadfile {
        stored_volume(volume) + stored_styles(memory.styles) + seq![command_of(cmd)]
            + stored_shaders(memory.glsl_shaders) + stored_styles(memory.styles)
    } else {
        seq![command_of(cmd)]
    }
}

/// The property that is to be watched, and the kind of its value.
pub open spec fn observation(key: PropKey) -> RequestView {
    match key {
        PropKey::Bool(name) => RequestView::ObserveProperty { name: name@, format: Format::Flag },
        PropKey::Int(name) => RequestView::ObserveProperty { name: name@, format: Format::Int64 },
        PropKey::Fp(name) => RequestView::ObserveProperty { name: name@, format: Format::Double },
        PropKey::Str(name) => RequestView::ObserveProperty { name: name@, format: Format::String },
    }
}

/// What is remembered after a message, and what it asks of the player.
pub open spec fn handled(memory: MemoryView, msg: InMsg, volume: JsonView) -> (
    MemoryView,
    Seq<RequestView>,
) {
    match (msg.0, msg.1) {
        (InMsgFn::MpvObserveProp, InMsgArgs::ObProp(key)) => (memory, seq![observation(key)]),
        (InMsgFn::MpvSetProp, InMsgArgs::StProp(name, value)) => (
            with_setting(memory, name@, value),
            seq![setting(name@, set_value_of(name@, value))],
        ),
        (InMsgFn::MpvCommand, InMsgArgs::Cmd(cmd)) => (
            memory,
            command_requests(memory, cmd, volume),
        ),
        _ => (memory, seq![RequestView::Unsupported]),
    }
}

fn observe(key: &PropKey) -> (request: Request)
    ensures
        request@ == observation(*key),
{
    match key {
        PropKey::Bool(name) => Request::ObserveProperty {
            name: name.clone(),
            format: Format::Flag,
        },
        PropKey::Int(name) => Request::ObserveProperty {
            name: name.clone(),
            format: Format::Int64,
        },
        PropKey::Fp(name) => Request::ObserveProperty {
            name: name.clone(),
            format: Format::Double,
        },
        PropKey::Str(name) => Request::ObserveProperty {
            name: name.clone(),
            format: Format::String,
        },
    }
}

fn set_property(memory: &mut PlayerMemory, name: &String, value: &PropVal) -> (request: Request)
    ensures
        final(memory)@ == with_setting(old(memory)@, name@, *value),
        request@ == setting(name@, set_value_of(name@, *value)),
{
    match value {
        PropVal::Bool(b) => Request::SetProperty { name: name.clone(), value: PropVal::Bool(*b) },
        PropVal::Num(n) => {
            remember_subtitle_f64(memory, name.as_str(), *n);
            Request::SetProperty { name: name.clone(), value: PropVal::Num(*n) }
        },
        PropVal::Str(s) => {
            let set = value_to_set(name.as_str(), s);
            if text::same(name.as_str(), "glsl-shaders") {
                remember_glsl_shaders(memory, set.as_str());
            }
            remember_subtitle_str(memory, name.as_str(), set.as_str());
            Request::SetProperty { name: name.clone(), value: PropVal::Str(set) }
        },
    }
}

/// What a command asks of the player, given the volume as it is stored.
pub fn send_command(memory: &PlayerMemory, cmd: &CmdVal, volume: &Json) -> (requests: Vec<Request>)
    ensures
        requests_view(requests@) == command_requests(memory@, *cmd, volume@),
{
    let mut requests: Vec<Request> = Vec::new();
    let is_loadfile = cmd_is_loadfile(cmd);
    if is_loadfile {
        apply_stored_player_volume(&mut requests, volume);
        apply_stored_subtitle_styles(&mut requests, &memory.styles);
    }
    let ghost before = requests@;
    requests.push(command_request(cmd));
    proof {
        assert(requests_view(requests@) =~= requests_view(before) + seq![command_of(*cmd)]);
    }
    if is_loadfile {
        apply_stored_glsl_shaders(&mut requests, memory);
        apply_stored_subtitle_styles(&mut requests, &memory.styles);
    }
    proof {
        assert(requests_view(requests@) =~= command_requests(memory@, *cmd, volume@));
    }
    requests
}

impl InMsg {
    /// Whether this asks for a file to be played.
    pub fn plays_file(&self) -> (yes: bool)
        ensures
            yes == (self.0 is MpvCommand && (self.1 matches InMsgArgs::Cmd(cmd) && cmd_head(cmd)
                is Loadfile)),
    {
        match (self.0, &self.1) {
            (InMsgFn::MpvCommand, InMsgArgs::Cmd(cmd)) => cmd_is_loadfile(cmd),
            _ => false,
        }
    }
}

/// What a message asks of the player, given the volume as it is stored, which
/// counts only where a file is to be played.
pub fn handle_message(memory: &mut PlayerMemory, msg: &InMsg, volume: &Json) -> (requests: Vec<
    Request,
>)
    ensures
        (final(memory)@, requests_view(requests@)) == handled(old(memory)@, *msg, volume@),
{
    let mut requests: Vec<Request> = Vec::new();
    match (msg.0, &msg.1) {
        (InMsgFn::MpvObserveProp, InMsgArgs::ObProp(key)) => {
            requests.push(observe(key));
        },
        (InMsgFn::MpvSetProp, InMsgArgs::StProp(name, value)) => {
            let request = set_property(memory, name, value);
            requests.push(request);
        },
        (InMsgFn::MpvCommand, InMsgArgs::Cmd(cmd)) => {
            return send_command(memory, cmd, volume);
        },
        _ => {
            requests.push(Request::Unsupported);
        },
    }
    proof {
        assert(requests_view(requests@) =~= handled(old(memory)@, *msg, volume@).1);
    }
    requests
}

/// How much a property that the player starts with matters.
#[derive(Clone, Copy, Debug, PartialEq, Eq, Structural)]
pub enum Need {
    /// The player cannot do without.
    Required,
    /// The player can do without.
    Optional,
    /// The player can do without, but it is to be noted.
    Preferred,
}

/// The value of a property that the player starts with.
#[derive(Clone, Copy, Debug)]
pub enum StartValue {
    Text(&'static str),
    Int(i64),
}

/// What a [`StartValue`] says.
#[verifier::ext_equal]
pub enum StartValueView {
    Text(Seq<char>),
    Int(i64),
}

/// A property that the player starts with.
#[derive(Clone, Copy, Debug)]
pub struct StartProperty {
    pub name: &'static str,
    pub value: StartValue,
    pub need: Need,
}

/// What a [`StartProperty`] says.
#[verifier::ext_equal]
pub struct StartPropertyView {
    pub name: Seq<char>,
    pub value: StartValueView,
    pub need: Need,
}

impl View for StartProperty {
    type V = StartPropertyView;

    open spec fn view(&self) -> StartPropertyView {
        StartPropertyView {
            name: self.name@,
            value: match self.value {
                StartValue::Text(s) => StartValueView::Text(s@),
                StartValue::Int(n) => StartValueView::Int(n),
            },
            need: self.need,
        }
    }
}

/// What a list of properties says.
pub open spec fn starts_view(properties: Seq<StartProperty>) -> Seq<StartPropertyView> {
    Seq::new(properties.len(), |i: int| properties[i]@)
}

/// A property that the player starts with.
pub open spec fn start(name: Seq<char>, value: StartValueView, need: Need) -> StartPropertyView {
    StartPropertyView { name, value, need }
}

/// How much the player tells on its terminal.
pub open spec fn message_level(debug: bool) -> Seq<char> {
    if debug {
        "all=no,cplayer=debug"@
    } else {
        "all=no"@
    }
}

/// The window that the player draws in, and what it tells.
pub open spec fn window_properties(window: i64, debug: bool) -> Seq<StartPropertyView> {
    seq![
        start("wid"@, StartValueView::Int(window), Need::Required),
        start("title"@, StartValueView::Text("MyStremio"@), Need::Required),
        start("audio-client-name"@, StartValueView::Text("MyStremio"@), Need::Required),
        start("terminal"@, StartValueView::Text("yes"@), Need::Required),
        start("border"@, StartValueView::Text("no"@), Need::Optional),
        start("force-window"@, StartValueView::Text("no"@), Need::Optional),
        start("background"@, StartValueView::Text("#000000"@), Need::Optional),
        start("msg-level"@, StartValueView::Text(message_level(debug)), Need::Required),
        start("quiet"@, StartValueView::Text("yes"@), Need::Required),
        start("osd-bar"@, StartValueView::Text("no"@), Need::Optional),
        start("osd-level"@, StartValueView::Int(0), Need::Optional),
        start("hwdec"@, StartValueView::Text("auto"@), Need::Required),
    ]
}

/// The way to the graphics hardware.
pub open spec fn device_properties(windows: bool) -> Seq<StartPropertyView> {
    if windows {
        seq![start("gpu-api"@, StartValueView::Text("d3d11"@), Need::Required)]
    } else {
        Seq::empty()
    }
}

/// The volume, the cache, which is small for a fast first frame, and the video output.
pub open spec fn stream_properties() -> Seq<StartPropertyView> {
    seq![
        start("cache"@, StartValueView::Text("yes"@), Need::Required),
        start("volume-max"@, StartValueView::Int(200), Need::Optional),
        start("cache-secs"@, StartValueView::Text("12"@), Need::Required),
        start("demuxer-readahead-secs"@, StartValueView::Text("12"@), Need::Required),
        start("demuxer-max-bytes"@, StartValueView::Text("200MiB"@), Need::Required),
        start("cache-pause-initial"@, StartValueView::Text("no"@), Need::Required),
        start("vo"@, StartValueView::Text("gpu-next,gpu,"@), Need::Required),
    ]
}

/// The quality of the picture.
pub open spec fn picture_properties() -> Seq<StartPropertyView> {
    seq![
        start("gpu-context"@, StartValueView::Text("d3d11"@), Need::Preferred),
        start("d3d11-output-format"@, StartValueView::Text("auto"@), Need::Preferred),
        start("d3d11-output-csp"@, StartValueView::Text("auto"@), Need::Preferred),
        start("target-colorspace-hint"@, StartValueView::Text("auto"@), Need::Preferred),
        start("target-colorspace-hint-mode"@, StartValueView::Text("target"@), Need::Preferred),
        start("tone-mapping"@, StartValueView::Text("bt.2390"@), Need::Preferred),
        start("dither-depth"@, StartValueView::Text("auto"@), Need::Preferred),
        start("deband"@, StartValueView::Text("yes"@), Need::Preferred),
        start("scale"@, StartValueView::Text("spline36"@), Need::Preferred),
        start("cscale"@, StartValueView::Text("spline36"@), Need::Preferred),
    ]
}

/// The properties that the player starts with, in the order in which they are
/// set.
pub open spec fn start_properties_of(
    window: i64,
    debug: bool,
    windows: bool,
) -> Seq<StartPropertyView> {
    window_properties(window, debug) + device_properties(windows) + stream_properties()
        + picture_properties()
}

fn push_start(
    properties: &mut Vec<StartProperty>,
    name: &'static str,
    value: StartValue,
    need: Need,
)
    ensures
        starts_view(final(properties)@) == starts_view(old(properties)@).push(
            (StartProperty { name, value, need })@,
        ),
{
    properties.push(StartProperty { name, value, need });
    proof {
        assert(starts_view(properties@) =~= starts_view(old(properties)@).push(
            (StartProperty { name, value, need })@,
        ));
    }
}

fn push_window_properties(properties: &mut Vec<StartProperty>, window: i64, debug: bool)
    ensures
        starts_view(final(properties)@) == starts_view(old(properties)@) + window_properties(
            window,
            debug,
        ),
{
    let level = if debug {
        "all=no,cplayer=debug"
    } else {
        "all=no"
    };
    push_start(properties, "wid", StartValue::Int(window), Need::Required);
    push_start(properties, "title", StartValue::Text("MyStremio"), Need::Required);
    push_start(properties, "audio-client-name", StartValue::Text("MyStremio"), Need::Required);
    push_start(properties, "terminal", StartValue::Text("yes"), Need::Required);
    push_start(properties, "border", StartValue::Text("no"), Need::Optional);
    push_start(properties, "force-window", StartValue::Text("no"), Need::Optional);
    push_start(properties, "background", StartValue::Text("#000000"), Need::Optional);
    push_start(properties, "msg-level", StartValue::Text(level), Need::Required);
    push_start(properties, "quiet", StartValue::Text("yes"), Need::Required);
    push_start(properties, "osd-bar", StartValue::Text("no"), Need::Optional);
    push_start(properties, "osd-level", StartValue::Int(0), Need::Optional);
    push_start(properties, "hwdec", StartValue::Text("auto"), Need::Required);
    proof {
        assert(starts_view(properties@) =~= starts_view(old(properties)@) + window_properties(
            window,
            debug,
        ));
    }
}

fn push_stream_properties(properties: &mut Vec<StartProperty>)
    ensures
        starts_view(final(properties)@) == starts_view(old(properties)@) + stream_properties(),
{
    push_start(properties, "cache", StartValue::Text("yes"), Need::Required);
    push_start(properties, "volume-max", StartValue::Int(200), Need::Optional);
    push_start(properties, "cache-secs", StartValue::Text("12"), Need::Required);
    push_start(properties, "demuxer-readahead-secs", StartValue::Text("12"), Need::Required);
    push_start(properties, "demuxer-max-bytes", StartValue::Text("200MiB"), Need::Required);
    push_start(properties, "cache-pause-initial", StartValue::Text("no"), Need::Required);
    push_start(properties, "vo", StartValue::Text("gpu-next,gpu,"), Need::Required);
    proof {
        assert(starts_view(properties@) =~= starts_view(old(properties)@) + stream_properties());
    }
}

fn push_picture_properties(properties: &mut Vec<StartProperty>)
    ensures
        starts_view(final(properties)@) == starts_view(old(properties)@) + picture_properties(),
{
    push_start(properties, "gpu-context", StartValue::Text("d3d11"), Need::Preferred);
    push_start(properties, "d3d11-output-format", StartValue::Text("auto"), Need::Preferred);
    push_start(properties, "d3d11-output-csp", StartValue::Text("auto"), Need::Preferred);
    push_start(properties, "target-colorspace-hint", StartValue::Text("auto"), Need::Preferred);
    push_start(properties, "target-colorspace-hint-mode", StartValue::Text("target"), Need::Preferred);
    push_start(properties, "tone-mapping", StartValue::Text("bt.2390"), Need::Preferred);
    push_start(properties, "dither-depth", StartValue::Text("auto"), Need::Preferred);
    push_start(properties, "deband", StartValue::Text("yes"), Need::Preferred);
    push_start(properties, "scale", StartValue::Text("spline36"), Need::Preferred);
    push_start(properties, "cscale", StartValue::Text("spline36"), Need::Preferred);
    proof {
        assert(starts_view(properties@) =~= starts_view(old(properties)@) + picture_properties());
    }
}

/// The properties that a player starts with that draws in `window`, in a debug
/// build or not, on Windows or not.
pub fn start_properties(window: i64, debug: bool, windows: bool) -> (properties: Vec<
    StartProperty,
>)
    ensures
        starts_view(properties@) == start_properties_of(window, debug, windows),
{
    let mut properties: Vec<StartProperty> = Vec::new();
    push_window_properties(&mut properties, window, debug);
    if windows {
        push_start(&mut properties, "gpu-api", StartValue::Text("d3d11"), Need::Required);
    }
    push_stream_properties(&mut properties);
    push_picture_properties(&mut properties);
    proof {
        assert(starts_view(properties@) =~= start_properties_of(window, debug, windows));
    }
    properties
}

/// The properties that are always watched.
pub open spec fn default_observations_of() -> Seq<(Seq<char>, Format)> {
    seq![
        ("time-pos"@, Format::Double),
        ("duration"@, Format::Double),
        ("demuxer-cache-time"@, Format::Double),
        ("pause"@, Format::Flag),
    ]
}

/// The properties that are always watched, the position, length and pause of
/// playback among them.
pub fn default_observations() -> (observations: Vec<(&'static str, Format)>)
    ensures
        Seq::new(observations@.len(), |i: int| (observations@[i].0@, observations@[i].1))
            == default_observations_of(),
{
    let mut observations: Vec<(&'static str, Format)> = Vec::new();
    observations.push(("time-pos", Format::Double));
    observations.push(("duration", Format::Double));
    observations.push(("demuxer-cache-time", Format::Double));
    observations.push(("pause", Format::Flag));
    proof {
        assert(Seq::new(
            observations@.len(),
            |i: int| (observations@[i].0@, observations@[i].1),
        ) =~= default_observations_of());
    }
    observations
}

/// What the player reports.
#[derive(Debug)]
pub enum MpvEvent {
    /// A property that is watched has changed.
    PropertyChange { name: String, change: PropertyData },
    /// A file has ended.
    EndFile,
    /// The player is shutting down.
    Shutdown,
    /// Anything else.
    Other,
}

/// What follows a report of the player.
#[derive(Debug)]
pub enum Reaction {
    /// The web page is told, under a name.
    Respond { name: &'static str, effects: Vec<Effect> },
    /// No more reports are waited for.
    Stop,
    /// Nothing.
    Skip,
}

/// What a [`Reaction`] says.
#[verifier::ext_equal]
pub enum ReactionView {
    Respond { name: Seq<char>, effects: Seq<Effect> },
    Stop,
    Skip,
}

impl View for Reaction {
    type V = ReactionView;

    open spec fn view(&self) -> ReactionView {
        match *self {
            Reaction::Respond { name, effects } => ReactionView::Respond {
                name: name@,
                effects: effects@,
            },
            Reaction::Stop => ReactionView::Stop,
            Reaction::Skip => ReactionView::Skip,
        }
    }
}

/// What the shell knows after a report of the player, and what follows it.
pub open spec fn reacted(shell: ShellView, event: MpvEvent) -> (ShellView, ReactionView) {
    match event {
        MpvEvent::PropertyChange { name, change } => {
            let (after, effects) = shell::reported(
                shell,
                shell::Report::Property { name: name@, change },
            );
            (after, ReactionView::Respond { name: "mpv-prop-change"@, effects })
        },
        MpvEvent::EndFile => {
            let (after, effects) = shell::reported(shell, shell::Report::PlaybackStopped);
            (after, ReactionView::Respond { name: "mpv-event-ended"@, effects })
        },
        MpvEvent::Shutdown => (shell, ReactionView::Stop),
        MpvEvent::Other => (shell, ReactionView::Skip),
    }
}

/// Takes note of a report of the player.
pub fn handle_event(shell: &mut Shell, event: &MpvEvent) -> (reaction: Reaction)
    ensures
        (final(shell)@, reaction@) == reacted(old(shell)@, *event),
{
    match event {
        MpvEvent::PropertyChange { name, change } => {
            let effects = shell::note_mpv_property(shell, name.as_str(), change);
            proof {
                assert(effects@ =~= shell::reported(
                    old(shell)@,
                    shell::Report::Property { name: name@, change: *change },
                ).1);
            }
            Reaction::Respond { name: "mpv-prop-change", effects }
        },
        MpvEvent::EndFile => {
            let effects = shell::note_playback_stopped(shell);
            Reaction::Respond { name: "mpv-event-ended", effects }
        },
        MpvEvent::Shutdown => Reaction::Stop,
        MpvEvent::Other => Reaction::Skip,
    }
}

/// The value that is remembered for a property.
pub open spec fn remembered(memory: MemoryView, name: Seq<char>) -> Option<PropValView> {
    let styles = memory.styles;
    if name == "glsl-shaders"@ {
        Some(PropValView::Str(memory.glsl_shaders))
    } else if name == "sub-ass-override"@ {
        optional_text(styles.override_mode)
    } else if name == "sub-scale"@ {
        optional_number(styles.scale)
    } else if name == "sub-pos"@ {
        optional_number(styles.pos)
    } else if name == "sub-delay"@ {
        optional_number(styles.delay)
    } else if name == "sub-color"@ {
        optional_text(styles.color)
    } else if name == "sub-back-color"@ {
        optional_text(styles.back_color)
    } else if name == "sub-border-color"@ {
        optional_text(styles.border_color)
    } else {
        None
    }
}

/// A text as a value, where there is one.
pub open spec fn optional_text(s: Option<Seq<char>>) -> Option<PropValView> {
    match s {
        Some(t) => Some(PropValView::Str(t)),
        None => None,
    }
}

/// A number as a value, where there is one.
pub open spec fn optional_number(n: Option<Double>) -> Option<PropValView> {
    match n {
        Some(v) => Some(PropValView::Num(v)),
        None => None,
    }
}

/// Whether a property that is set to a value is to be set anew with each file.
pub open spec fn is_remembered(name: Seq<char>, value: PropVal) -> bool {
    match value {
        PropVal::Bool(_) => false,
        PropVal::Num(_) => name == "sub-scale"@ || name == "sub-pos"@ || name == "sub-delay"@,
        PropVal::Str(s) => name == "glsl-shaders"@ || name == "sub-color"@ || name
            == "sub-back-color"@ || name == "sub-border-color"@ || (name == "sub-ass-override"@
            && s@ != "no"@),
    }
}

proof fn lemma_names()
    ensures
        "glsl-shaders"@ != "sub-ass-override"@,
        "glsl-shaders"@ != "sub-scale"@,
        "glsl-shaders"@ != "sub-pos"@,
        "glsl-shaders"@ != "sub-delay"@,
        "glsl-shaders"@ != "sub-color"@,
        "glsl-shaders"@ != "sub-back-color"@,
        "glsl-shaders"@ != "sub-border-color"@,
        "sub-ass-override"@ != "sub-scale"@,
        "sub-ass-override"@ != "sub-pos"@,
        "sub-ass-override"@ != "sub-delay"@,
        "sub-ass-override"@ != "sub-color"@,
        "sub-ass-override"@ != "sub-back-color"@,
        "sub-ass-override"@ != "sub-border-color"@,
        "sub-scale"@ != "sub-pos"@,
        "sub-scale"@ != "sub-delay"@,
        "sub-scale"@ != "sub-color"@,
        "sub-scale"@ != "sub-back-color"@,
        "sub-scale"@ != "sub-border-color"@,
        "sub-pos"@ != "sub-delay"@,
        "sub-pos"@ != "sub-color"@,
        "sub-pos"@ != "sub-back-color"@,
        "sub-pos"@ != "sub-border-color"@,
        "sub-delay"@ != "sub-color"@,
        "sub-delay"@ != "sub-back-color"@,
        "sub-delay"@ != "sub-border-color"@,
        "sub-color"@ != "sub-back-color"@,
        "sub-color"@ != "sub-border-color"@,
        "sub-back-color"@ != "sub-border-color"@,
        "vo"@ != "glsl-shaders"@,
        "vo"@ != "sub-ass-override"@,
        "vo"@ != "sub-color"@,
        "vo"@ != "sub-back-color"@,
        "vo"@ != "sub-border-color"@,
{
    reveal_strlit("glsl-shaders");
    reveal_strlit("sub-ass-override");
    reveal_strlit("sub-scale");
    reveal_strlit("sub-pos");
    reveal_strlit("sub-delay");
    reveal_strlit("sub-color");
    reveal_strlit("sub-back-color");
    reveal_strlit("sub-border-color");
    reveal_strlit("vo");
    assert("glsl-shaders"@[0] == 'g');
    assert("sub-ass-override"@[0] == 's' && "sub-ass-override"@.len() == 16);
    assert("sub-border-color"@[0] == 's' && "sub-border-color"@.len() == 16);
    assert("sub-ass-override"@[4] == 'a' && "sub-border-color"@[4] == 'b');
    assert("sub-scale"@[0] == 's' && "sub-scale"@.len() == 9 && "sub-scale"@[4] == 's');
    assert("sub-delay"@[0] == 's' && "sub-delay"@.len() == 9 && "sub-delay"@[4] == 'd');
    assert("sub-color"@[0] == 's' && "sub-color"@.len() == 9 && "sub-color"@[4] == 'c');
    assert("sub-pos"@[0] == 's' && "sub-pos"@.len() == 7);
    assert("sub-back-color"@[0] == 's' && "sub-back-color"@.len() == 14);
    assert("vo"@[0] == 'v');
}

/// The value that a remembered property is set to is the one that is
/// remembered, in place of any earlier one; nothing else that is remembered
/// changes. A property that is not to be remembered changes nothing.
pub proof fn law_last_value_is_remembered(
    memory: MemoryView,
    name: Seq<char>,
    value: PropVal,
    other: Seq<char>,
)
    ensures
        ({
            let after = with_setting(memory, name, value);
            &&& is_remembered(name, value) ==> remembered(after, name) == Some(
                set_value_of(name, value),
            )
            &&& !is_remembered(name, value) ==> after == memory
            &&& other != name ==> remembered(after, other) == remembered(memory, other)
        }),
{
    lemma_names();
}

/// When a file is played, all that is remembered of subtitles is set both
/// before and behind it, the stored volume before it and the shaders behind it.
pub proof fn law_file_is_played_as_set(
    memory: MemoryView,
    cmd: CmdVal,
    volume: JsonView,
    before: Seq<RequestView>,
    after: Seq<RequestView>,
    name: Seq<char>,
)
    requires
        cmd_head(cmd) is Loadfile,
        before == stored_volume(volume) + stored_styles(memory.styles),
        after == stored_shaders(memory.glsl_shaders) + stored_styles(memory.styles),
    ensures
        command_requests(memory, cmd, volume) == before + seq![command_of(cmd)] + after,
        remembered(memory, name) matches Some(value) ==> {
            &&& after.contains(setting(name, value))
            &&& name != "glsl-shaders"@ ==> before.contains(setting(name, value))
        },
        volume.number_at("level"@) matches Some(level) ==> before.contains(
            setting("volume"@, PropValView::Num(level.kept_within_200())),
        ),
        volume.truth_at("muted"@) matches Some(muted) ==> before.contains(
            setting("mute"@, PropValView::Bool(muted)),
        ),
{
    lemma_names();
    assert(command_requests(memory, cmd, volume) =~= before + seq![command_of(cmd)] + after);
    let styles = memory.styles;
    let a = text_setting("sub-ass-override"@, styles.override_mode);
    let b = a + number_setting("sub-scale"@, styles.scale);
    let c = b + number_setting("sub-pos"@, styles.pos);
    let d = c + number_setting("sub-delay"@, styles.delay);
    let e = d + text_setting("sub-color"@, styles.color);
    let f = e + text_setting("sub-back-color"@, styles.back_color);
    let g = f + text_setting("sub-border-color"@, styles.border_color);
    assert(g == stored_styles(styles));
    let first = stored_volume(volume);
    let shaders = stored_shaders(memory.glsl_shaders);
    if let Some(value) = remembered(memory, name) {
        let r = setting(name, value);
        if name == "glsl-shaders"@ {
            assert(after[0] == r);
        } else {
            let i = if name == "sub-ass-override"@ {
                0
            } else if name == "sub-scale"@ {
                a.len() as int
            } else if name == "sub-pos"@ {
                b.len() as int
            } else if name == "sub-delay"@ {
                c.len() as int
            } else if name == "sub-color"@ {
                d.len() as int
            } else if name == "sub-back-color"@ {
                e.len() as int
            } else {
                f.len() as int
            };
            assert(g[i] == r);
            assert(before[first.len() + i] == r);
            assert(after[shaders.len() + i] == r);
        }
    }
    if volume.number_at("level"@) is Some {
        assert(before[0] == first[0]);
    }
    if volume.truth_at("muted"@) is Some {
        assert(before[first.len() - 1] == first.last());
    }
}

/// What is remembered after a row of messages.
pub open spec fn handled_all(
    memory: MemoryView,
    messages: Seq<InMsg>,
    volumes: Seq<JsonView>,
) -> MemoryView
    decreases messages.len(),
{
    if messages.len() == 0 {
        memory
    } else {
        handled(
            handled_all(memory, messages.drop_last(), volumes),
            messages.last(),
            volumes[messages.len() - 1],
        ).0
    }
}

/// The mode that has subtitle properties ignored is set when it is asked for,
/// and never with another file.
pub proof fn law_ignoring_styles_is_not_remembered(messages: Seq<InMsg>, volumes: Seq<JsonView>)
    ensures
        remembered(handled_all(blank(), messages, volumes), "sub-ass-override"@) != Some(
            PropValView::Str("no"@),
        ),
    decreases messages.len(),
{
    lemma_names();
    if messages.len() > 0 {
        law_ignoring_styles_is_not_remembered(messages.drop_last(), volumes);
    }
}

/// The video outputs that are asked for come first, and one that is fallen back
/// to comes last.
pub proof fn law_video_output_falls_back(value: Seq<char>)
    ensures
        text::starts(text_value("vo"@, value), value),
        text::ends(text_value("vo"@, value), "gpu-next,"@),
        value.len() > 0 ==> text_value("vo"@, value)[text_value("vo"@, value).len()
            - "gpu-next,"@.len() - 1] == ',',
{
    reveal_strlit(",");
    reveal_strlit("gpu-next,");
    let set = text_value("vo"@, value);
    assert(set.take(value.len() as int) =~= value);
    assert(set.skip(set.len() - "gpu-next,"@.len()) =~= "gpu-next,"@);
}

/// What the player reports of playback is what the presence goes by, and it is
/// always watched.
pub proof fn law_presence_follows_player(shell: ShellView, name: String, change: PropertyData)
    ensures
        ({
            let after = reacted(shell, MpvEvent::PropertyChange { name, change }).0;
            &&& name@ == "time-pos"@ ==> (change matches PropertyData::Double(value)
                ==> after.current_time == value)
            &&& name@ == "duration"@ ==> (change matches PropertyData::Double(value)
                ==> after.total_duration == value)
            &&& name@ == "pause"@ ==> (change matches PropertyData::Flag(value)
                ==> after.is_paused == value)
        }),
        ({
            let after = reacted(shell, MpvEvent::EndFile).0;
            after.current_time == (Double { bits: 0 }) && after.total_duration == (Double {
                bits: 0,
            }) && !after.is_paused
        }),
        default_observations_of().contains(("time-pos"@, Format::Double)),
        default_observations_of().contains(("duration"@, Format::Double)),
        default_observations_of().contains(("pause"@, Format::Flag)),
{
    reveal_strlit("time-pos");
    reveal_strlit("duration");
    assert("time-pos"@[0] != "duration"@[0]);
    let list = default_observations_of();
    assert(list[0] == ("time-pos"@, Format::Double));
    assert(list[1] == ("duration"@, Format::Double));
    assert(list[3] == ("pause"@, Format::Flag));
}

/// A message that sets a property asks the player for one thing: to set the
/// property of that name to that very value. Only the list of video outputs gets
/// one more behind it.
pub proof fn law_setting_asks_for_value(
    memory: MemoryView,
    name: String,
    value: PropVal,
    volume: JsonView,
)
    ensures
        ({
            let requests = handled(
                memory,
                InMsg(InMsgFn::MpvSetProp, InMsgArgs::StProp(name, value)),
                volume,
            ).1;
            &&& requests.len() == 1
            &&& requests[0] matches RequestView::SetProperty { name: n, value: v } && n == name@ && {
                &&& value matches PropVal::Bool(b) ==> v == PropValView::Bool(b)
                &&& value matches PropVal::Num(x) ==> v == PropValView::Num(x)
                &&& value matches PropVal::Str(s) ==> (name@ != "vo"@ ==> v == PropValView::Str(s@))
                &&& value matches PropVal::Str(s) ==> (name@ == "vo"@ ==> v == PropValView::Str(
                    if s@.len() == 0 || s@.last() == ',' {
                        s@ + "gpu-next,"@
                    } else {
                        s@ + ",gpu-next,"@
                    },
                ))
            }
        }),
{
    reveal_strlit(",");
    reveal_strlit("gpu-next,");
    reveal_strlit(",gpu-next,");
    assert(","@ + "gpu-next,"@ =~= ",gpu-next,"@);
    if let PropVal::Str(s) = value {
        assert(s@ + ","@ + "gpu-next,"@ =~= s@ + ",gpu-next,"@);
    }
}

/// What is set and what is set anew with a file are one: after a property that
/// is kept has been set, the next file is played with just the value that the
/// player was asked for.
pub proof fn law_kept_property_comes_back(
    memory: MemoryView,
    name: String,
    value: PropVal,
    cmd: CmdVal,
    volume: JsonView,
    later: JsonView,
)
    requires
        is_remembered(name@, value),
        cmd_head(cmd) is Loadfile,
    ensures
        ({
            let (after, requests) = handled(
                memory,
                InMsg(InMsgFn::MpvSetProp, InMsgArgs::StProp(name, value)),
                volume,
            );
            handled(after, InMsg(InMsgFn::MpvCommand, InMsgArgs::Cmd(cmd)), later).1.contains(
                requests[0],
            )
        }),
{
    let (after, requests) = handled(
        memory,
        InMsg(InMsgFn::MpvSetProp, InMsgArgs::StProp(name, value)),
        volume,
    );
    law_last_value_is_remembered(memory, name@, value, name@);
    let first = stored_volume(later) + stored_styles(after.styles);
    let behind = stored_shaders(after.glsl_shaders) + stored_styles(after.styles);
    law_file_is_played_as_set(after, cmd, later, first, behind, name@);
    let r = requests[0];
    assert(behind.contains(r));
    let i = choose|i: int| 0 <= i < behind.len() && behind[i] == r;
    let all = first + seq![command_of(cmd)] + behind;
    assert(all[first.len() + 1 + i] == r);
}

/// A message about a property to watch asks for just that, by the kind of its
/// value; one that is no request of its kind asks for nothing. Neither is kept in
/// mind.
pub proof fn law_watching_asks_for_property(memory: MemoryView, name: String, volume: JsonView)
    ensures
        ({
            let watch = InMsgFn::MpvObserveProp;
            let flag = InMsg(watch, InMsgArgs::ObProp(PropKey::Bool(name)));
            let int64 = InMsg(watch, InMsgArgs::ObProp(PropKey::Int(name)));
            let double = InMsg(watch, InMsgArgs::ObProp(PropKey::Fp(name)));
            let string = InMsg(watch, InMsgArgs::ObProp(PropKey::Str(name)));
            &&& handled(memory, flag, volume) == (
                memory,
                seq![RequestView::ObserveProperty { name: name@, format: Format::Flag }],
            )
            &&& handled(memory, int64, volume) == (
                memory,
                seq![RequestView::ObserveProperty { name: name@, format: Format::Int64 }],
            )
            &&& handled(memory, double, volume) == (
                memory,
                seq![RequestView::ObserveProperty { name: name@, format: Format::Double }],
            )
            &&& handled(memory, string, volume) == (
                memory,
                seq![RequestView::ObserveProperty { name: name@, format: Format::String }],
            )
        }),
{
}

/// A message whose arguments are not those of what it asks for asks for nothing.
pub proof fn law_odd_messages_ask_for_nothing(
    memory: MemoryView,
    asks: InMsgFn,
    args: InMsgArgs,
    volume: JsonView,
)
    requires
        args is ObProp ==> asks != InMsgFn::MpvObserveProp,
        args is StProp ==> asks != InMsgFn::MpvSetProp,
        args is Cmd ==> asks != InMsgFn::MpvCommand,
    ensures
        handled(memory, InMsg(asks, args), volume) == (memory, seq![RequestView::Unsupported]),
{
}

/// A command that plays no file is asked for alone. Its name is the one that was
/// given, and each argument stands in quotation marks, in order. A command is
/// not kept in mind.
pub proof fn law_commands_are_passed_on(
    memory: MemoryView,
    name: String,
    a: String,
    b: String,
    c: String,
    d: String,
    volume: JsonView,
)
    ensures
        ({
            let q = "\""@;
            let head = MpvCmd::Other(name);
            &&& command_sent(memory, CmdVal::Single((head,)), volume) == (
                name@,
                Seq::<Seq<char>>::empty(),
            )
            &&& command_sent(memory, CmdVal::Double(head, a), volume) == (
                name@,
                seq![q + a@ + q],
            )
            &&& command_sent(memory, CmdVal::Tripple(head, a, b), volume) == (
                name@,
                seq![q + a@ + q, q + b@ + q],
            )
            &&& command_sent(memory, CmdVal::Quadruple(head, a, b, c), volume) == (
                name@,
                seq![q + a@ + q, q + b@ + q, q + c@ + q],
            )
            &&& command_sent(memory, CmdVal::Quintuple(head, a, b, c, d), volume) == (
                name@,
                seq![q + a@ + q, q + b@ + q, q + c@ + q, q + d@ + q],
            )
            &&& command_of(CmdVal::Double(MpvCmd::Loadfile, a)) == (RequestView::Command {
                name: "loadfile"@,
                args: seq![q + a@ + q],
            })
            &&& command_of(CmdVal::Tripple(MpvCmd::Loadfile, a, b)) == (RequestView::Command {
                name: "loadfile"@,
                args: seq![q + a@ + q, q + b@ + q],
            })
            &&& command_of(CmdVal::Quadruple(MpvCmd::Loadfile, a, b, c)) == (RequestView::Command {
                name: "loadfile"@,
                args: seq![q + a@ + q, q + b@ + q, q + c@ + q],
            })
            &&& command_of(CmdVal::Quintuple(MpvCmd::Loadfile, a, b, c, d)) == (
            RequestView::Command {
                name: "loadfile"@,
                args: seq![q + a@ + q, q + b@ + q, q + c@ + q, q + d@ + q],
            })
            &&& command_of(CmdVal::Single((MpvCmd::Loadfile,))) == (RequestView::Command {
                name: "loadfile"@,
                args: Seq::empty(),
            })
        }),
        forall|cmd: CmdVal|
            (#[trigger] handled(
                memory,
                InMsg(InMsgFn::MpvCommand, InMsgArgs::Cmd(cmd)),
                volume,
            )).0 == memory,
{
    let q = "\""@;
    let f = |s: Seq<char>| quoted(s);
    assert(Seq::<Seq<char>>::empty().map_values(f) =~= Seq::<Seq<char>>::empty());
    assert(seq![a@].map_values(f) =~= seq![q + a@ + q]);
    assert(seq![a@, b@].map_values(f) =~= seq![q + a@ + q, q + b@ + q]);
    assert(seq![a@, b@, c@].map_values(f) =~= seq![q + a@ + q, q + b@ + q, q + c@ + q]);
    assert(seq![a@, b@, c@, d@].map_values(f) =~= seq![
        q + a@ + q,
        q + b@ + q,
        q + c@ + q,
        q + d@ + q,
    ]);
}

/// The one command that a message asks for, by name and arguments.
pub open spec fn command_sent(memory: MemoryView, cmd: CmdVal, volume: JsonView) -> (
    Seq<char>,
    Seq<Seq<char>>,
)
    recommends
        handled(memory, InMsg(InMsgFn::MpvCommand, InMsgArgs::Cmd(cmd)), volume).1.len() == 1,
{
    let requests = handled(memory, InMsg(InMsgFn::MpvCommand, InMsgArgs::Cmd(cmd)), volume).1;
    if requests.len() == 1 && requests[0] is Command {
        (requests[0]->Command_name, requests[0]->args)
    } else {
        (Seq::empty(), seq![Seq::empty()])
    }
}

/// The stored volume is set as it is stored: the level first, moved into its
/// range, and then whether it is muted, each where it is stored, and nothing else.
pub proof fn law_stored_volume_is_set(volume: JsonView)
    ensures
        ({
            let requests = stored_volume(volume);
            let level = volume.number_at("level"@);
            let muted = volume.truth_at("muted"@);
            &&& level is None && muted is None ==> requests.len() == 0
            &&& level matches Some(n) ==> requests.len() > 0 && requests[0] == (
            RequestView::SetProperty {
                name: "volume"@,
                value: PropValView::Num(n.kept_within_200()),
            })
            &&& level is Some && muted is None ==> requests.len() == 1
            &&& level is Some && muted is Some ==> requests.len() == 2
            &&& level is None && muted is Some ==> requests.len() == 1
            &&& muted matches Some(b) ==> requests.last() == (RequestView::SetProperty {
                name: "mute"@,
                value: PropValView::Bool(b),
            })
        }),
{
}

/// Of the subtitle properties nothing is set anew but what is remembered.
pub proof fn law_only_what_is_remembered_is_set_anew(memory: MemoryView, i: int)
    requires
        0 <= i < stored_styles(memory.styles).len(),
    ensures
        stored_styles(memory.styles)[i] matches RequestView::SetProperty { name, value }
            && remembered(memory, name) == Some(value),
        stored_shaders(memory.glsl_shaders) == seq![
            RequestView::SetProperty {
                name: "glsl-shaders"@,
                value: PropValView::Str(memory.glsl_shaders),
            },
        ],
{
    lemma_names();
    let styles = memory.styles;
    let a = text_setting("sub-ass-override"@, styles.override_mode);
    let b = a + number_setting("sub-scale"@, styles.scale);
    let c = b + number_setting("sub-pos"@, styles.pos);
    let d = c + number_setting("sub-delay"@, styles.delay);
    let e = d + text_setting("sub-color"@, styles.color);
    let f = e + text_setting("sub-back-color"@, styles.back_color);
    let g = f + text_setting("sub-border-color"@, styles.border_color);
    assert(g == stored_styles(styles));
    if i < a.len() {
        assert(g[i] == a[i]);
    } else if i < b.len() {
        assert(g[i] == b[i]);
    } else if i < c.len() {
        assert(g[i] == c[i]);
    } else if i < d.len() {
        assert(g[i] == d[i]);
    } else if i < e.len() {
        assert(g[i] == e[i]);
    } else if i < f.len() {
        assert(g[i] == f[i]);
    }
}

/// Nothing is remembered of a player that nothing has been set of, but that it
/// has no shaders.
pub proof fn law_nothing_set_yet(name: Seq<char>)
    ensures
        name != "glsl-shaders"@ ==> remembered(blank(), name) is None,
        blank().glsl_shaders.len() == 0,
        stored_styles(blank().styles).len() == 0,
{
}

/// The web page is told of each property that changes and of the end of each
/// file, by name; the end of the player ends the reports, and other reports are
/// passed over. What the shell then knows, and the presence thread is told, is
/// what it does of that property, or of playback that has stopped.
pub proof fn law_player_reports_are_answered(
    shell: ShellView,
    name: String,
    change: PropertyData,
)
    ensures
        ({
            let (after, effects) = shell::reported(
                shell,
                shell::Report::Property { name: name@, change },
            );
            reacted(shell, MpvEvent::PropertyChange { name, change }) == (
                after,
                ReactionView::Respond { name: "mpv-prop-change"@, effects },
            )
        }),
        ({
            let (after, effects) = shell::reported(shell, shell::Report::PlaybackStopped);
            reacted(shell, MpvEvent::EndFile) == (
                after,
                ReactionView::Respond { name: "mpv-event-ended"@, effects },
            )
        }),
        reacted(shell, MpvEvent::Shutdown) == (shell, ReactionView::Stop),
        reacted(shell, MpvEvent::Other) == (shell, ReactionView::Skip),
{
}

/// The player starts with the window and the level of messages that it is given,
/// on Windows with the graphics interface of that system, and else with the same
/// properties everywhere, in one order.
pub proof fn law_player_starts_with(window: i64, debug: bool, windows: bool)
    ensures
        ({
            let list = start_properties_of(window, debug, windows);
            let more: int = if windows {
                1
            } else {
                0
            };
            &&& list.len() == 29 + more
            &&& starts_as(list[0], "wid"@, StartValueView::Int(window), Need::Required)
            &&& starts_as(list[1], "title"@, StartValueView::Text("MyStremio"@), Need::Required)
            &&& starts_as(list[2], "audio-client-name"@, StartValueView::Text("MyStremio"@), Need::Required)
            &&& starts_as(list[3], "terminal"@, StartValueView::Text("yes"@), Need::Required)
            &&& starts_as(list[4], "border"@, StartValueView::Text("no"@), Need::Optional)
            &&& starts_as(list[5], "force-window"@, StartValueView::Text("no"@), Need::Optional)
            &&& starts_as(list[6], "background"@, StartValueView::Text("#000000"@), Need::Optional)
            &&& starts_as(
                list[7],
                "msg-level"@,
                StartValueView::Text(
                    if debug {
                        "all=no,cplayer=debug"@
                    } else {
                        "all=no"@
                    },
                ),
                Need::Required,
            )
            &&& starts_as(list[8], "quiet"@, StartValueView::Text("yes"@), Need::Required)
            &&& starts_as(list[9], "osd-bar"@, StartValueView::Text("no"@), Need::Optional)
            &&& starts_as(list[10], "osd-level"@, StartValueView::Int(0), Need::Optional)
            &&& starts_as(list[11], "hwdec"@, StartValueView::Text("auto"@), Need::Required)
            &&& starts_as(list[12 + more], "cache"@, StartValueView::Text("yes"@), Need::Required)
            &&& starts_as(list[13 + more], "volume-max"@, StartValueView::Int(200), Need::Optional)
            &&& starts_as(list[14 + more], "cache-secs"@, StartValueView::Text("12"@), Need::Required)
            &&& starts_as(list[15 + more], "demuxer-readahead-secs"@, StartValueView::Text("12"@), Need::Required)
            &&& starts_as(list[16 + more], "demuxer-max-bytes"@, StartValueView::Text("200MiB"@), Need::Required)
            &&& starts_as(list[17 + more], "cache-pause-initial"@, StartValueView::Text("no"@), Need::Required)
            &&& starts_as(list[18 + more], "vo"@, StartValueView::Text("gpu-next,gpu,"@), Need::Required)
            &&& starts_as(list[19 + more], "gpu-context"@, StartValueView::Text("d3d11"@), Need::Preferred)
            &&& starts_as(list[20 + more], "d3d11-output-format"@, StartValueView::Text("auto"@), Need::Preferred)
            &&& starts_as(list[21 + more], "d3d11-output-csp"@, StartValueView::Text("auto"@), Need::Preferred)
            &&& starts_as(list[22 + more], "target-colorspace-hint"@, StartValueView::Text("auto"@), Need::Preferred)
            &&& starts_as(list[23 + more], "target-colorspace-hint-mode"@, StartValueView::Text("target"@), Need::Preferred)
            &&& starts_as(list[24 + more], "tone-mapping"@, StartValueView::Text("bt.2390"@), Need::Preferred)
            &&& starts_as(list[25 + more], "dither-depth"@, StartValueView::Text("auto"@), Need::Preferred)
            &&& starts_as(list[26 + more], "deband"@, StartValueView::Text("yes"@), Need::Preferred)
            &&& starts_as(list[27 + more], "scale"@, StartValueView::Text("spline36"@), Need::Preferred)
            &&& starts_as(list[28 + more], "cscale"@, StartValueView::Text("spline36"@), Need::Preferred)
            &&& windows ==> starts_as(
                list[12],
                "gpu-api"@,
                StartValueView::Text("d3d11"@),
                Need::Required,
            )
        }),
{
}

/// Whether a property has this name, value and need.
pub open spec fn starts_as(
    property: StartPropertyView,
    name: Seq<char>,
    value: StartValueView,
    need: Need,
) -> bool {
    property.name == name && property.value == value && property.need == need
}

} // verus!
