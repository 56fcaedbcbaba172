//! Action-scoped payloads and their parsers.
use vstd::prelude::*;

use crate::decode::{de_flag, de_real, de_text, read_flag, read_real, read_text, record_field, record_field_exec, record_shape, record_shape_exec};
use crate::protocol::events::{controller_from_name, Controller, Coordinates};
use crate::text::{lemma_lex_asymmetric, lemma_lex_irreflexive, lemma_lex_total, lex_lt, str_eq, str_lt};
use crate::json::{
    lemma_member_models, member_models, opt_model, Json, JsonNumber, JsonValue,
};

verus! {

/// Common payload fields shared by action-scoped Stream Deck events.
pub struct ActionPayload {
    /// Controller that owns the instance.
    pub controller: Controller,
    /// Slot coordinates when present.
    pub coordinates: Option<Coordinates>,
    /// True when the event came from a multi-action.
    pub is_in_multi_action: bool,
    /// Current state index.
    pub state: Option<i32>,
    /// User-desired state index.
    pub user_desired_state: Option<i32>,
    /// Resource map from `didReceiveResources`: keys ascending, each once.
    pub resources: Vec<(String, String)>,
    /// Raw settings object.
    pub settings: JsonValue,
}

pub struct ActionPayloadView {
    pub controller: Controller,
    pub coordinates: Option<Coordinates>,
    pub is_in_multi_action: bool,
    pub state: Option<i32>,
    pub user_desired_state: Option<i32>,
    pub resources: Seq<(Seq<char>, Seq<char>)>,
    pub settings: Json,
}

pub open spec fn pair_views(pairs: Seq<(String, String)>) -> Seq<(Seq<char>, Seq<char>)> {
    pairs.map_values(|e: (String, String)| (e.0@, e.1@))
}

impl View for ActionPayload {
    type V = ActionPayloadView;

    open spec fn view(&self) -> ActionPayloadView {
        ActionPayloadView {
            controller: self.controller,
            coordinates: self.coordinates,
            is_in_multi_action: self.is_in_multi_action,
            state: self.state,
            user_desired_state: self.user_desired_state,
            resources: pair_views(self.resources@),
            settings: self.settings@,
        }
    }
}

pub open spec fn default_action_payload() -> ActionPayloadView {
    ActionPayloadView {
        controller: Controller::Keypad,
        coordinates: None,
        is_in_multi_action: false,
        state: None,
        user_desired_state: None,
        resources: Seq::empty(),
        settings: Json::Null,
    }
}

impl Default for ActionPayload {
    fn default() -> (r: ActionPayload)
        ensures
            r@ == default_action_payload(),
    {
        let r = ActionPayload {
            controller: Controller::Keypad,
            coordinates: None,
            is_in_multi_action: false,
            state: None,
            user_desired_state: None,
            resources: Vec::new(),
            settings: JsonValue::Null,
        };
        assert(r@.resources =~= Seq::<(Seq<char>, Seq<char>)>::empty());
        r
    }
}

impl Clone for ActionPayload {
    fn clone(&self) -> (r: Self)
        ensures
            r@ == self@,
    {
        let mut resources: Vec<(String, String)> = Vec::new();
        let mut i: usize = 0;
        while i < self.resources.len()
            invariant
                0 <= i <= self.resources@.len(),
                resources@.len() == i,
                forall|j: int|
                    0 <= j < i ==> (#[trigger] resources@[j]).0@ == self.resources@[j].0@
                        && resources@[j].1@ == self.resources@[j].1@,
            decreases self.resources@.len() - i,
        {
            let k = self.resources[i].0.clone();
            let v = self.resources[i].1.clone();
            resources.push((k, v));
            i = i + 1;
        }
        assert(pair_views(resources@) =~= pair_views(self.resources@));
        ActionPayload {
            controller: self.controller,
            coordinates: self.coordinates,
            is_in_multi_action: self.is_in_multi_action,
            state: self.state,
            user_desired_state: self.user_desired_state,
            resources,
            settings: self.settings.clone(),
        }
    }
}

/// The text a JSON value holds, or empty for any other value.
pub open spec fn text_or_empty(v: Json) -> Seq<char> {
    match v {
        Json::Str(s) => s,
        _ => Seq::empty(),
    }
}

/// The `i64` of an optional JSON value, truncated to `i32` as the payload reads it.
pub open spec fn opt_i64(o: Option<Json>) -> Option<i64> {
    match o {
        Some(v) => v.i64_value(),
        None => None,
    }
}

/// Slot coordinates: both `column` and `row` must be integers.
pub open spec fn coordinates_of(c: Option<Json>) -> Option<Coordinates> {
    match c {
        Some(v) => match (opt_i64(v.field("column"@)), opt_i64(v.field("row"@))) {
            (Some(col), Some(row)) => Some(Coordinates { column: col as i32, row: row as i32 }),
            _ => None,
        },
        None => None,
    }
}

/// `(k, v)` put at its place among `acc`, whose keys ascend; `acc` unchanged
/// when it already has the key `k`.
pub open spec fn insert_sorted(acc: Seq<(Seq<char>, Seq<char>)>, k: Seq<char>, v: Seq<char>) -> Seq<
    (Seq<char>, Seq<char>),
>
    decreases acc.len(),
{
    if acc.len() == 0 {
        seq![(k, v)]
    } else if acc[0].0 == k {
        acc
    } else if lex_lt(k, acc[0].0) {
        seq![(k, v)] + acc
    } else {
        seq![acc[0]] + insert_sorted(acc.drop_first(), k, v)
    }
}

/// The members of an object as a map from key to text (empty when a member holds
/// no text): keys ascending, each once, the first member with a key giving its text.
pub open spec fn sorted_resources(entries: Seq<(Seq<char>, Json)>) -> Seq<(Seq<char>, Seq<char>)>
    decreases entries.len(),
{
    if entries.len() == 0 {
        Seq::empty()
    } else {
        insert_sorted(sorted_resources(entries.drop_last()), entries.last().0, text_or_empty(entries.last().1))
    }
}

/// The resource map of a payload field: the object's members as by
/// `sorted_resources`, nothing when the field is not an object.
pub open spec fn resources_of(r: Option<Json>) -> Seq<(Seq<char>, Seq<char>)> {
    match r {
        Some(Json::Object(entries)) => sorted_resources(entries),
        _ => Seq::empty(),
    }
}

/// Where the scan for `k` in `acc` stopped, `insert_sorted` puts `(k, v)`, or
/// leaves `acc` as it is when the key is there.
proof fn lemma_insert_sorted_at(acc: Seq<(Seq<char>, Seq<char>)>, k: Seq<char>, v: Seq<char>, pos: int)
    requires
        0 <= pos <= acc.len(),
        forall|j: int| 0 <= j < pos ==> lex_lt(#[trigger] acc[j].0, k),
        pos < acc.len() ==> !lex_lt(acc[pos].0, k),
    ensures
        insert_sorted(acc, k, v) == if pos < acc.len() && acc[pos].0 == k {
            acc
        } else {
            acc.take(pos) + seq![(k, v)] + acc.skip(pos)
        },
    decreases pos,
{
    if pos == 0 {
        if acc.len() > 0 && acc[0].0 != k {
            lemma_lex_total(k, acc[0].0);
            assert(seq![(k, v)] + acc =~= acc.take(0) + seq![(k, v)] + acc.skip(0));
        } else if acc.len() == 0 {
            assert(seq![(k, v)] =~= acc.take(0) + seq![(k, v)] + acc.skip(0));
        }
    } else {
        let rest = acc.drop_first();
        assert(lex_lt(acc[0].0, k));
        lemma_lex_irreflexive(k);
        lemma_lex_asymmetric(acc[0].0, k);
        assert forall|j: int| 0 <= j < pos - 1 implies lex_lt(#[trigger] rest[j].0, k) by {
            assert(rest[j] == acc[j + 1]);
        }
        lemma_insert_sorted_at(rest, k, v, pos - 1);
        if pos < acc.len() && acc[pos].0 == k {
            assert(seq![acc[0]] + rest =~= acc);
        } else {
            assert(seq![acc[0]] + (rest.take(pos - 1) + seq![(k, v)] + rest.skip(pos - 1)) =~= acc.take(
                pos,
            ) + seq![(k, v)] + acc.skip(pos));
        }
    }
}

/// What `parse_action_payload` reads out of a payload.
pub open spec fn action_payload_of(p: Json) -> ActionPayloadView {
    ActionPayloadView {
        controller: match p.field("controller"@) {
            Some(Json::Str(s)) => controller_from_name(s),
            _ => Controller::Keypad,
        },
        coordinates: coordinates_of(p.field("coordinates"@)),
        is_in_multi_action: match p.field("isInMultiAction"@) {
            Some(Json::Bool(b)) => b,
            _ => false,
        },
        state: match opt_i64(p.field("state"@)) {
            Some(v) => Some(v as i32),
            None => None,
        },
        user_desired_state: match opt_i64(p.field("userDesiredState"@)) {
            Some(v) => Some(v as i32),
            None => None,
        },
        resources: resources_of(p.field("resources"@)),
        settings: match p.field("settings"@) {
            Some(v) => v,
            None => Json::Null,
        },
    }
}

fn read_opt_i64(o: Option<&JsonValue>) -> (r: Option<i64>)
    ensures
        r == opt_i64(opt_model(o)),
{
    match o {
        Some(v) => v.as_i64(),
        None => None,
    }
}

fn read_coordinates(c: Option<&JsonValue>) -> (r: Option<Coordinates>)
    ensures
        r == coordinates_of(opt_model(c)),
{
    match c {
        Some(v) => {
            let column = read_opt_i64(v.get("column"));
            let row = read_opt_i64(v.get("row"));
            match (column, row) {
                (Some(col), Some(row)) => Some(Coordinates { column: col as i32, row: row as i32 }),
                _ => None,
            }
        },
        None => None,
    }
}

fn read_resources(r: Option<&JsonValue>) -> (out: Vec<(String, String)>)
    ensures
        pair_views(out@) == resources_of(opt_model(r)),
{
    let mut out: Vec<(String, String)> = Vec::new();
    match r {
        Some(JsonValue::Object(entries)) => {
            proof {
                lemma_member_models(entries@);
            }
            let ghost ms = member_models(entries@);
            let mut i: usize = 0;
            assert(ms.take(0) =~= Seq::<(Seq<char>, Json)>::empty());
            while i < entries.len()
                invariant
                    0 <= i <= entries@.len(),
                    ms == member_models(entries@),
                    ms.len() == entries@.len(),
                    forall|j: int|
                        0 <= j < entries@.len() ==> #[trigger] ms[j] == (entries@[j].0@, entries@[j].1@),
                    pair_views(out@) == sorted_resources(ms.take(i as int)),
                decreases entries@.len() - i,
            {
                let k = entries[i].0.clone();
                let v = match entries[i].1.as_str() {
                    Some(s) => s.to_owned(),
                    None => String::new(),
                };
                let ghost acc = pair_views(out@);
                assert(ms.take(i + 1).drop_last() =~= ms.take(i as int));
                assert(ms.take(i + 1).last() == ms[i as int]);
                assert(v@ == text_or_empty(ms[i as int].1));
                let mut pos: usize = 0;
                while pos < out.len() && str_lt(out[pos].0.as_str(), k.as_str())
                    invariant
                        acc == pair_views(out@),
                        0 <= pos <= out@.len(),
                        forall|q: int| 0 <= q < pos ==> lex_lt(#[trigger] acc[q].0, k@),
                    decreases out@.len() - pos,
                {
                    pos = pos + 1;
                }
                proof {
                    lemma_insert_sorted_at(acc, k@, v@, pos as int);
                }
                if pos < out.len() && str_eq(out[pos].0.as_str(), k.as_str()) {
                } else {
                    out.insert(pos, (k, v));
                    assert(pair_views(out@) =~= acc.take(pos as int) + seq![(k@, v@)] + acc.skip(pos as int));
                }
                i = i + 1;
            }
            assert(ms.take(entries@.len() as int) =~= ms);
            out
        },
        _ => {
            assert(pair_views(out@) =~= Seq::<(Seq<char>, Seq<char>)>::empty());
            out
        },
    }
}

/// Parse a common action payload from a JSON object.
pub fn parse_action_payload(payload: &JsonValue) -> (r: ActionPayload)
    ensures
        r@ == action_payload_of(payload@),
{
    let controller = match payload.get("controller") {
        Some(JsonValue::String(s)) => Controller::from_protocol_str(s.as_str()),
        _ => Controller::Keypad,
    };
    let coordinates = read_coordinates(payload.get("coordinates"));
    let is_in_multi_action = match payload.get("isInMultiAction") {
        Some(JsonValue::Bool(b)) => *b,
        _ => false,
    };
    let state = match read_opt_i64(payload.get("state")) {
        Some(v) => Some(v as i32),
        None => None,
    };
    let user_desired_state = match read_opt_i64(payload.get("userDesiredState")) {
        Some(v) => Some(v as i32),
        None => None,
    };
    let resources = read_resources(payload.get("resources"));
    let settings = match payload.get("settings") {
        Some(v) => v.clone(),
        None => JsonValue::Null,
    };
    ActionPayload {
        controller,
        coordinates,
        is_in_multi_action,
        state,
        user_desired_state,
        resources,
        settings,
    }
}

/// Encoder rotation payload.
pub struct DialRotatePayload {
    /// Shared action fields.
    pub action: ActionPayload,
    /// Whether the encoder is pressed while rotating.
    pub pressed: bool,
    /// Signed tick count.
    pub ticks: i32,
}

pub struct DialRotatePayloadView {
    pub action: ActionPayloadView,
    pub pressed: bool,
    pub ticks: i32,
}

impl View for DialRotatePayload {
    type V = DialRotatePayloadView;

    open spec fn view(&self) -> DialRotatePayloadView {
        DialRotatePayloadView { action: self.action@, pressed: self.pressed, ticks: self.ticks }
    }
}

impl Clone for DialRotatePayload {
    fn clone(&self) -> (r: Self)
        ensures
            r@ == self@,
    {
        DialRotatePayload { action: self.action.clone(), pressed: self.pressed, ticks: self.ticks }
    }
}

/// What `parse_dial_rotate` reads out of a payload.
pub open spec fn dial_rotate_of(p: Json) -> DialRotatePayloadView {
    DialRotatePayloadView {
        action: action_payload_of(p),
        pressed: match p.field("pressed"@) {
            Some(Json::Bool(b)) => b,
            _ => false,
        },
        ticks: match opt_i64(p.field("ticks"@)) {
            Some(v) => v as i32,
            None => 0,
        },
    }
}

/// Parse a `dialRotate` payload.
pub fn parse_dial_rotate(payload: &JsonValue) -> (r: DialRotatePayload)
    ensures
        r@ == dial_rotate_of(payload@),
{
    let action = parse_action_payload(payload);
    let pressed = match payload.get("pressed") {
        Some(JsonValue::Bool(b)) => *b,
        _ => false,
    };
    let ticks = match read_opt_i64(payload.get("ticks")) {
        Some(v) => v as i32,
        None => 0,
    };
    DialRotatePayload { action, pressed, ticks }
}

/// Touch-strip tap payload. Protocol uses `tapPos: [x, y]`.
pub struct TouchTapPayload {
    /// Shared action fields.
    pub action: ActionPayload,
    /// True when the tap was a hold.
    pub hold: bool,
    /// X position.
    pub tap_x: i32,
    /// Y position.
    pub tap_y: i32,
}

pub struct TouchTapPayloadView {
    pub action: ActionPayloadView,
    pub hold: bool,
    pub tap_x: i32,
    pub tap_y: i32,
}

impl View for TouchTapPayload {
    type V = TouchTapPayloadView;

    open spec fn view(&self) -> TouchTapPayloadView {
        TouchTapPayloadView {
            action: self.action@,
            hold: self.hold,
            tap_x: self.tap_x,
            tap_y: self.tap_y,
        }
    }
}

impl Clone for TouchTapPayload {
    fn clone(&self) -> (r: Self)
        ensures
            r@ == self@,
    {
        TouchTapPayload {
            action: self.action.clone(),
            hold: self.hold,
            tap_x: self.tap_x,
            tap_y: self.tap_y,
        }
    }
}

/// Coordinate `index` of the `tapPos` array, or 0 when it holds no integer there.
pub open spec fn tap_coordinate(p: Json, index: int) -> i32 {
    match p.field("tapPos"@) {
        Some(Json::Array(items)) => if 0 <= index < items.len() {
            match items[index].i64_value() {
                Some(v) => v as i32,
                None => 0,
            }
        } else {
            0
        },
        _ => 0,
    }
}

/// What `parse_touch_tap` reads out of a payload.
pub open spec fn touch_tap_of(p: Json) -> TouchTapPayloadView {
    TouchTapPayloadView {
        action: action_payload_of(p),
        hold: match p.field("hold"@) {
            Some(Json::Bool(b)) => b,
            _ => false,
        },
        tap_x: tap_coordinate(p, 0),
        tap_y: tap_coordinate(p, 1),
    }
}

fn read_tap_coordinate(tap: Option<&JsonValue>, index: usize) -> (r: i32)
    requires
        tap matches Some(t) ==> t@ is Array,
    ensures
        tap matches Some(t) ==> r == (match t@.element(index as int) {
            Some(e) => match e.i64_value() {
                Some(v) => v as i32,
                None => 0,
            },
            None => 0,
        }),
        tap is None ==> r == 0,
{
    match tap {
        Some(t) => match read_opt_i64(t.get_index(index)) {
            Some(v) => v as i32,
            None => 0,
        },
        None => 0,
    }
}

/// Parse a `touchTap` payload.
pub fn parse_touch_tap(payload: &JsonValue) -> (r: TouchTapPayload)
    ensures
        r@ == touch_tap_of(payload@),
{
    let tap_field = payload.get("tapPos");
    let tap = match tap_field {
        Some(JsonValue::Array(_)) => tap_field,
        _ => None,
    };
    let action = parse_action_payload(payload);
    let hold = match payload.get("hold") {
        Some(JsonValue::Bool(b)) => *b,
        _ => false,
    };
    let tap_x = read_tap_coordinate(tap, 0);
    let tap_y = read_tap_coordinate(tap, 1);
    TouchTapPayload { action, hold, tap_x, tap_y }
}

/// Title style tokens.
pub struct TitleParameters {
    pub font_family: String,
    /// Font size, as the JSON number that carried it.
    pub font_size: JsonNumber,
    pub font_style: String,
    pub font_underline: bool,
    pub show_title: bool,
    pub title_alignment: String,
    pub title_color: String,
}

pub struct TitleParametersView {
    pub font_family: Seq<char>,
    pub font_size: JsonNumber,
    pub font_style: Seq<char>,
    pub font_underline: bool,
    pub show_title: bool,
    pub title_alignment: Seq<char>,
    pub title_color: Seq<char>,
}

impl View for TitleParameters {
    type V = TitleParametersView;

    open spec fn view(&self) -> TitleParametersView {
        TitleParametersView {
            font_family: self.font_family@,
            font_size: self.font_size,
            font_style: self.font_style@,
            font_underline: self.font_underline,
            show_title: self.show_title,
            title_alignment: self.title_alignment@,
            title_color: self.title_color@,
        }
    }
}

pub open spec fn default_title_parameters() -> TitleParametersView {
    TitleParametersView {
        font_family: Seq::empty(),
        font_size: JsonNumber::PosInt(0),
        font_style: Seq::empty(),
        font_underline: false,
        show_title: false,
        title_alignment: Seq::empty(),
        title_color: Seq::empty(),
    }
}

impl Default for TitleParameters {
    fn default() -> (r: TitleParameters)
        ensures
            r@ == default_title_parameters(),
    {
        TitleParameters {
            font_family: String::new(),
            font_size: JsonNumber::PosInt(0),
            font_style: String::new(),
            font_underline: false,
            show_title: false,
            title_alignment: String::new(),
            title_color: String::new(),
        }
    }
}

impl Clone for TitleParameters {
    fn clone(&self) -> (r: Self)
        ensures
            r@ == self@,
    {
        TitleParameters {
            font_family: self.font_family.clone(),
            font_size: self.font_size,
            font_style: self.font_style.clone(),
            font_underline: self.font_underline,
            show_title: self.show_title,
            title_alignment: self.title_alignment.clone(),
            title_color: self.title_color.clone(),
        }
    }
}

/// The title parameters a JSON value carries (fields `fontFamily`, `fontSize`,
/// `fontStyle`, `fontUnderline`, `showTitle`, `titleAlignment`, `titleColor`),
/// or `None` when it carries none.
pub open spec fn title_parameters_of(v: Json) -> Option<TitleParametersView> {
    if !record_shape(v, 7) {
        None
    } else {
        match (
            de_text(record_field(v, "fontFamily"@, 0)),
            de_real(record_field(v, "fontSize"@, 1)),
            de_text(record_field(v, "fontStyle"@, 2)),
            de_flag(record_field(v, "fontUnderline"@, 3)),
            de_flag(record_field(v, "showTitle"@, 4)),
            de_text(record_field(v, "titleAlignment"@, 5)),
            de_text(record_field(v, "titleColor"@, 6)),
        ) {
            (Some(a), Some(b), Some(c), Some(d), Some(e), Some(f), Some(g)) => Some(
                TitleParametersView {
                    font_family: a,
                    font_size: b,
                    font_style: c,
                    font_underline: d,
                    show_title: e,
                    title_alignment: f,
                    title_color: g,
                },
            ),
            _ => None,
        }
    }
}

impl TitleParameters {
    /// Read title parameters out of a JSON value.
    pub fn from_json(v: &JsonValue) -> (r: Option<TitleParameters>)
        ensures
            match r {
                Some(t) => title_parameters_of(v@) == Some(t@),
                None => title_parameters_of(v@) is None,
            },
    {
        if !record_shape_exec(v, 7) {
            return None;
        }
        let a = read_text(record_field_exec(v, "fontFamily", 0));
        let b = read_real(record_field_exec(v, "fontSize", 1));
        let c = read_text(record_field_exec(v, "fontStyle", 2));
        let d = read_flag(record_field_exec(v, "fontUnderline", 3));
        let e = read_flag(record_field_exec(v, "showTitle", 4));
        let f = read_text(record_field_exec(v, "titleAlignment", 5));
        let g = read_text(record_field_exec(v, "titleColor", 6));
        match (a, b, c, d, e, f, g) {
            (Some(a), Some(b), Some(c), Some(d), Some(e), Some(f), Some(g)) => Some(
                TitleParameters {
                    font_family: a,
                    font_size: b,
                    font_style: c,
                    font_underline: d,
                    show_title: e,
                    title_alignment: f,
                    title_color: g,
                },
            ),
            _ => None,
        }
    }
}

/// `titleParametersDidChange` payload.
pub struct TitleParametersPayload {
    /// Shared action fields.
    pub action: ActionPayload,
    /// Current title text.
    pub title: String,
    /// Style tokens.
    pub title_parameters: TitleParameters,
}

pub struct TitleParametersPayloadView {
    pub action: ActionPayloadView,
    pub title: Seq<char>,
    pub title_parameters: TitleParametersView,
}

impl View for TitleParametersPayload {
    type V = TitleParametersPayloadView;

    open spec fn view(&self) -> TitleParametersPayloadView {
        TitleParametersPayloadView {
            action: self.action@,
            title: self.title@,
            title_parameters: self.title_parameters@,
        }
    }
}

impl Clone for TitleParametersPayload {
    fn clone(&self) -> (r: Self)
        ensures
            r@ == self@,
    {
        TitleParametersPayload {
            action: self.action.clone(),
            title: self.title.clone(),
            title_parameters: self.title_parameters.clone(),
        }
    }
}

/// What `parse_title_parameters` reads out of a payload.
pub open spec fn title_parameters_payload_of(p: Json) -> TitleParametersPayloadView {
    TitleParametersPayloadView {
        action: action_payload_of(p),
        title: match p.field("title"@) {
            Some(Json::Str(s)) => s,
            _ => Seq::empty(),
        },
        title_parameters: match p.field("titleParameters"@) {
            Some(v) => match title_parameters_of(v) {
                Some(t) => t,
                None => default_title_parameters(),
            },
            None => default_title_parameters(),
        },
    }
}

/// Parse a `titleParametersDidChange` payload.
pub fn parse_title_parameters(payload: &JsonValue) -> (r: TitleParametersPayload)
    ensures
        r@ == title_parameters_payload_of(payload@),
{
    let action = parse_action_payload(payload);
    let title = match payload.get("title") {
        Some(JsonValue::String(s)) => s.clone(),
        _ => String::new(),
    };
    let title_parameters = match payload.get("titleParameters") {
        Some(v) => match TitleParameters::from_json(v) {
            Some(t) => t,
            None => TitleParameters::default(),
        },
        None => TitleParameters::default(),
    };
    TitleParametersPayload { action, title, title_parameters }
}

} // verus!
