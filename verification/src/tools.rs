//! The six routed MCP tools: their names, argument types, and what each call
//! asks the game mod for (or answers directly when its arguments fall short).

use vstd::prelude::*;
use crate::json::{obj_get, JsonNumber, JsonValue};
use crate::lifecycle::{ascii_lowered, is_ascii_text, lowercase, version_from_lowered, GameVersion, LaunchGameOptions};
use crate::text::{join, join_strings, push_str, str_equal, string_from_chars};

verus! {

/// A tool's name and description as listed to MCP clients.
#[derive(Debug, Clone, Copy)]
pub struct ToolDescriptor {
    pub name: &'static str,
    pub description: &'static str,
}

/// The tool names, in listing order.
pub open spec fn tool_names() -> Seq<Seq<char>> {
    seq!["s1_player"@, "s1_npc"@, "s1_item"@, "s1_world"@, "s1_inspect"@, "s1_game"@]
}

/// The tool descriptions, in listing order.
pub open spec fn tool_descriptions() -> Seq<Seq<char>> {
    seq![
        "Interact with the player character (state, inventory, teleport, add items)."@,
        "Interact with NPCs (list/get/teleport/set health)."@,
        "Interact with game items (list/get/spawn)."@,
        "Query world state, locations, vehicles, logs, and saves."@,
        "Inspect and manipulate Unity GameObjects via reflection."@,
        "Manage game lifecycle and search S1API documentation."@,
    ]
}

fn descriptor(name: &'static str, description: &'static str) -> (d: ToolDescriptor)
    ensures
        d.name@ == name@,
        d.description@ == description@,
{
    ToolDescriptor { name, description }
}

/// The six tools, in listing order.
pub fn tool_descriptors() -> (r: Vec<ToolDescriptor>)
    ensures
        r@.len() == 6,
        forall|i: int| 0 <= i < 6 ==> #[trigger] r@[i].name@ == tool_names()[i]
            && r@[i].description@ == tool_descriptions()[i],
{
    let mut r: Vec<ToolDescriptor> = Vec::new();
    r.push(descriptor("s1_player", "Interact with the player character (state, inventory, teleport, add items)."));
    r.push(descriptor("s1_npc", "Interact with NPCs (list/get/teleport/set health)."));
    r.push(descriptor("s1_item", "Interact with game items (list/get/spawn)."));
    r.push(descriptor("s1_world", "Query world state, locations, vehicles, logs, and saves."));
    r.push(descriptor("s1_inspect", "Inspect and manipulate Unity GameObjects via reflection."));
    r.push(descriptor("s1_game", "Manage game lifecycle and search S1API documentation."));
    r
}

/// The position of `name` among the tool names, if it is one.
pub open spec fn tool_index(name: Seq<char>) -> Option<int> {
    if name == tool_names()[0] { Some(0) }
    else if name == tool_names()[1] { Some(1) }
    else if name == tool_names()[2] { Some(2) }
    else if name == tool_names()[3] { Some(3) }
    else if name == tool_names()[4] { Some(4) }
    else if name == tool_names()[5] { Some(5) }
    else { None }
}

/// Looks a tool up by name.
pub fn find_tool(tool_name: &str) -> (r: Option<ToolDescriptor>)
    ensures
        match tool_index(tool_name@) {
            Some(i) => r matches Some(d) && d.name@ == tool_names()[i] && d.description@ == tool_descriptions()[i],
            None => r is None,
        },
{
    let tools = tool_descriptors();
    let mut i: usize = 0;
    while i < tools.len()
        invariant
            i <= tools.len(),
            tools@.len() == 6,
            forall|k: int| 0 <= k < 6 ==> #[trigger] tools@[k].name@ == tool_names()[k]
                && tools@[k].description@ == tool_descriptions()[k],
            forall|k: int| 0 <= k < i ==> tool_names()[k] != tool_name@,
        decreases tools.len() - i,
    {
        if str_equal(tools[i].name, tool_name) {
            assert(tools@[i as int].name@ == tool_names()[i as int]);
            return Some(tools[i]);
        }
        i += 1;
    }
    None
}

/// All tool names, comma separated, in listing order.
pub fn all_tool_names_csv() -> (r: String)
    ensures
        r@ == join(tool_names(), ", "@),
{
    let tools = tool_descriptors();
    let mut names: Vec<String> = Vec::new();
    let mut i: usize = 0;
    while i < tools.len()
        invariant
            i <= tools.len(),
            tools@.len() == 6,
            forall|k: int| 0 <= k < 6 ==> #[trigger] tools@[k].name@ == tool_names()[k],
            names@.len() == i,
            forall|k: int| 0 <= k < i ==> #[trigger] names@[k]@ == tool_names()[k],
        decreases tools.len() - i,
    {
        names.push(String::from_str(tools[i].name));
        i += 1;
    }
    assert(names@.map_values(|p: String| p@) =~= tool_names());
    join_strings(&names, ", ")
}

/// The tools that calls are routed to.
#[derive(Debug, Clone, Copy, PartialEq, Eq, Structural)]
pub enum ToolKind {
    Player,
    Npc,
    Item,
    World,
    Inspect,
    Game,
}

/// The tool kind at each listing position.
pub open spec fn kind_at(i: int) -> ToolKind {
    if i == 0 { ToolKind::Player } else if i == 1 { ToolKind::Npc } else if i == 2 { ToolKind::Item }
    else if i == 3 { ToolKind::World } else if i == 4 { ToolKind::Inspect } else { ToolKind::Game }
}

/// The answer to a call of a tool that does not exist.
pub open spec fn unknown_tool_text(name: Seq<char>) -> Seq<char> {
    "Error: Unknown tool '"@ + name + "'. Available tools: "@ + join(tool_names(), ", "@)
}

/// Exactly the listed names are tools: each listed name is found at its own
/// position (so `find_tool` and `route_tool` both accept it), and any name they
/// accept is listed.
pub proof fn lemma_listed_names_route(name: Seq<char>)
    ensures
        forall|i: int| 0 <= i < 6 ==> #[trigger] tool_index(tool_names()[i]) == Some(i),
        tool_index(name) is Some <==> tool_names().contains(name),
{
    reveal_strlit("s1_player");
    reveal_strlit("s1_npc");
    reveal_strlit("s1_item");
    reveal_strlit("s1_world");
    reveal_strlit("s1_inspect");
    reveal_strlit("s1_game");
    assert(tool_names()[0][3] == 'p' && tool_names()[1][3] == 'n' && tool_names()[2][4] == 't');
    assert(tool_names()[3][3] == 'w' && tool_names()[4][4] == 'n' && tool_names()[5][3] == 'g');
    assert(tool_names()[2][3] == 'i' && tool_names()[4][3] == 'i');
    if tool_names().contains(name) {
        let i = choose|i: int| 0 <= i < tool_names().len() && tool_names()[i] == name;
        assert(tool_index(name) is Some);
    }
    if tool_index(name) is Some {
        let i = tool_index(name).unwrap();
        assert(tool_names()[i] == name);
    }
}

/// Routes a call to its tool, or gives the error that names the known tools.
pub fn route_tool(tool_name: &str) -> (r: Result<ToolKind, String>)
    ensures
        match tool_index(tool_name@) {
            Some(i) => r == Ok::<ToolKind, String>(kind_at(i)),
            None => r matches Err(m) && m@ == unknown_tool_text(tool_name@),
        },
{
    if str_equal(tool_name, "s1_player") { return Ok(ToolKind::Player); }
    if str_equal(tool_name, "s1_npc") { return Ok(ToolKind::Npc); }
    if str_equal(tool_name, "s1_item") { return Ok(ToolKind::Item); }
    if str_equal(tool_name, "s1_world") { return Ok(ToolKind::World); }
    if str_equal(tool_name, "s1_inspect") { return Ok(ToolKind::Inspect); }
    if str_equal(tool_name, "s1_game") { return Ok(ToolKind::Game); }
    let csv = all_tool_names_csv();
    let mut m: Vec<char> = Vec::new();
    push_str(&mut m, "Error: Unknown tool '");
    push_str(&mut m, tool_name);
    push_str(&mut m, "'. Available tools: ");
    push_str(&mut m, csv.as_str());
    assert(m@ =~= unknown_tool_text(tool_name@));
    Err(string_from_chars(&m))
}

/// A point in the game world. Coordinates are the floating-point numbers the
/// caller gave, held as JSON numbers.
#[derive(Debug, Clone)]
pub struct Position {
    pub x: JsonNumber,
    pub y: JsonNumber,
    pub z: JsonNumber,
}

/// How the text of a successful call is made from the mod's result.
#[derive(Debug, Clone, Copy, PartialEq, Eq, Structural)]
pub enum ReplyStyle {
    /// The result as pretty-printed JSON.
    Pretty,
    /// A log summary (see `format_logs`).
    Logs,
    /// The save list with its count (see `saves_reply`).
    Saves,
    /// The load confirmation (see `load_save_reply`).
    LoadSave,
}

/// What a tool call does: answer at once, or call a method of the game mod.
#[derive(Debug)]
pub enum ToolPlan {
    /// Answer with this text without calling the mod.
    Reply(String),
    /// Call `method` with `params` (absent params are sent as an empty object)
    /// and answer as `style` says.
    Call { method: String, params: Option<JsonValue>, style: ReplyStyle },
}

/// A parameter value as a plan states it.
pub enum ParamSpec {
    /// Exactly this value.
    Is(JsonValue),
    /// The object `{"x": .., "y": .., "z": ..}` of a position.
    At(Position),
}

/// A plan as the contracts state it.
pub enum PlanSpec {
    Reply(Seq<char>),
    Call { method: Seq<char>, params: Option<Seq<(Seq<char>, ParamSpec)>>, style: ReplyStyle },
}

/// Whether `v` is the JSON object of position `p`.
pub open spec fn is_position(v: JsonValue, p: Position) -> bool {
    v matches JsonValue::Object(es) && es@.len() == 3
        && es@[0].0@ == "x"@ && es@[0].1 == JsonValue::Number(p.x)
        && es@[1].0@ == "y"@ && es@[1].1 == JsonValue::Number(p.y)
        && es@[2].0@ == "z"@ && es@[2].1 == JsonValue::Number(p.z)
}

/// Whether `v` is the value that `p` states.
pub open spec fn param_matches(v: JsonValue, p: ParamSpec) -> bool {
    match p {
        ParamSpec::Is(w) => v == w,
        ParamSpec::At(pos) => is_position(v, pos),
    }
}

/// Whether object entries are, in order, the keys and values of `ps`.
pub open spec fn entries_match(es: Seq<(String, JsonValue)>, ps: Seq<(Seq<char>, ParamSpec)>) -> bool {
    es.len() == ps.len() && forall|i: int| 0 <= i < es.len() ==> es[i].0@ == ps[i].0 && param_matches(es[i].1, ps[i].1)
}

/// Whether `plan` is the plan that `s` states.
pub open spec fn plan_matches(plan: ToolPlan, s: PlanSpec) -> bool {
    match (plan, s) {
        (ToolPlan::Reply(t), PlanSpec::Reply(u)) => t@ == u,
        (ToolPlan::Call { method, params, style }, PlanSpec::Call { method: m, params: p, style: st }) =>
            method@ == m && style == st && match (params, p) {
                (None, None) => true,
                (Some(JsonValue::Object(es)), Some(ps)) => entries_match(es@, ps),
                _ => false,
            },
        _ => false,
    }
}

/// A string parameter.
pub open spec fn str_param(key: Seq<char>, v: String) -> Seq<(Seq<char>, ParamSpec)> {
    seq![(key, ParamSpec::Is(JsonValue::String(v)))]
}

/// A string parameter that is present only when given.
pub open spec fn opt_str_param(key: Seq<char>, v: Option<String>) -> Seq<(Seq<char>, ParamSpec)> {
    match v {
        Some(s) => str_param(key, s),
        None => Seq::empty(),
    }
}

/// A position parameter.
pub open spec fn pos_param(key: Seq<char>, p: Position) -> Seq<(Seq<char>, ParamSpec)> {
    seq![(key, ParamSpec::At(p))]
}

/// A non-negative integer parameter.
pub open spec fn uint_param(key: Seq<char>, n: u64) -> Seq<(Seq<char>, ParamSpec)> {
    seq![(key, ParamSpec::Is(JsonValue::Number(JsonNumber::PosInt(n))))]
}

/// A non-negative integer parameter that is present only when given.
pub open spec fn opt_uint_param(key: Seq<char>, n: Option<u64>) -> Seq<(Seq<char>, ParamSpec)> {
    match n {
        Some(v) => uint_param(key, v),
        None => Seq::empty(),
    }
}

/// A parameter with exactly this value.
pub open spec fn value_param(key: Seq<char>, v: JsonValue) -> Seq<(Seq<char>, ParamSpec)> {
    seq![(key, ParamSpec::Is(v))]
}

/// A parameter that is present only when given.
pub open spec fn opt_value_param(key: Seq<char>, v: Option<JsonValue>) -> Seq<(Seq<char>, ParamSpec)> {
    match v {
        Some(w) => value_param(key, w),
        None => Seq::empty(),
    }
}

/// A position parameter that is present only when given.
pub open spec fn opt_pos_param(key: Seq<char>, p: Option<Position>) -> Seq<(Seq<char>, ParamSpec)> {
    match p {
        Some(v) => pos_param(key, v),
        None => Seq::empty(),
    }
}

/// The answer to an action that the tool does not have.
pub open spec fn unknown_action_text(action: Seq<char>) -> Seq<char> {
    "Error: Unknown action '"@ + action + "'"@
}

/// A call whose params are the given entries.
pub open spec fn call_with(method: Seq<char>, ps: Seq<(Seq<char>, ParamSpec)>) -> PlanSpec {
    PlanSpec::Call { method, params: Some(ps), style: ReplyStyle::Pretty }
}

fn reply(text: &str) -> (r: ToolPlan)
    ensures
        plan_matches(r, PlanSpec::Reply(text@)),
{
    ToolPlan::Reply(String::from_str(text))
}

fn unknown_action(action: &str) -> (r: ToolPlan)
    ensures
        plan_matches(r, PlanSpec::Reply(unknown_action_text(action@))),
{
    let mut m: Vec<char> = Vec::new();
    push_str(&mut m, "Error: Unknown action '");
    push_str(&mut m, action);
    push_str(&mut m, "'");
    assert(m@ =~= unknown_action_text(action@));
    ToolPlan::Reply(string_from_chars(&m))
}

/// Object entries being built for a call, tracked against what the plan states.
struct Params {
    entries: Vec<(String, JsonValue)>,
}

impl Params {
    spec fn matches(&self, ps: Seq<(Seq<char>, ParamSpec)>) -> bool {
        entries_match(self.entries@, ps)
    }

    fn new() -> (r: Params)
        ensures
            r.matches(Seq::empty()),
    {
        Params { entries: Vec::new() }
    }

    fn add(&mut self, key: &str, value: JsonValue, Ghost(ps): Ghost<Seq<(Seq<char>, ParamSpec)>>)
        requires
            old(self).matches(ps),
        ensures
            final(self).matches(ps.push((key@, ParamSpec::Is(value)))),
    {
        self.entries.push((String::from_str(key), value));
        assert(final(self).entries@.len() == ps.len() + 1);
        assert forall|i: int| 0 <= i < final(self).entries@.len() implies
            final(self).entries@[i].0@ == ps.push((key@, ParamSpec::Is(value)))[i].0
            && param_matches(final(self).entries@[i].1, ps.push((key@, ParamSpec::Is(value)))[i].1) by {
            if i < ps.len() {
                assert(final(self).entries@[i] == old(self).entries@[i]);
            }
        }
    }

    fn add_str(&mut self, key: &str, value: String, Ghost(ps): Ghost<Seq<(Seq<char>, ParamSpec)>>)
        requires
            old(self).matches(ps),
        ensures
            final(self).matches(ps + str_param(key@, value)),
    {
        let ghost v = value;
        self.add(key, JsonValue::String(value), Ghost(ps));
        assert(ps.push((key@, ParamSpec::Is(JsonValue::String(v)))) =~= ps + str_param(key@, v));
    }

    fn add_opt_str(&mut self, key: &str, value: Option<String>, Ghost(ps): Ghost<Seq<(Seq<char>, ParamSpec)>>)
        requires
            old(self).matches(ps),
        ensures
            final(self).matches(ps + opt_str_param(key@, value)),
    {
        match value {
            Some(v) => self.add_str(key, v, Ghost(ps)),
            None => {
                assert(ps + opt_str_param(key@, value) =~= ps);
            },
        }
    }

    fn add_uint(&mut self, key: &str, n: u64, Ghost(ps): Ghost<Seq<(Seq<char>, ParamSpec)>>)
        requires
            old(self).matches(ps),
        ensures
            final(self).matches(ps + uint_param(key@, n)),
    {
        self.add(key, JsonValue::Number(JsonNumber::PosInt(n)), Ghost(ps));
        assert(ps.push((key@, ParamSpec::Is(JsonValue::Number(JsonNumber::PosInt(n))))) =~= ps + uint_param(key@, n));
    }

    fn add_pos(&mut self, key: &str, p: Position, Ghost(ps): Ghost<Seq<(Seq<char>, ParamSpec)>>)
        requires
            old(self).matches(ps),
        ensures
            final(self).matches(ps + pos_param(key@, p)),
    {
        let ghost gp = p;
        let mut xyz: Vec<(String, JsonValue)> = Vec::new();
        xyz.push((String::from_str("x"), JsonValue::Number(p.x)));
        xyz.push((String::from_str("y"), JsonValue::Number(p.y)));
        xyz.push((String::from_str("z"), JsonValue::Number(p.z)));
        let v = JsonValue::Object(xyz);
        assert(is_position(v, gp));
        self.entries.push((String::from_str(key), v));
        let ghost want = ps + pos_param(key@, gp);
        assert forall|i: int| 0 <= i < final(self).entries@.len() implies
            final(self).entries@[i].0@ == want[i].0 && param_matches(final(self).entries@[i].1, want[i].1) by {
            if i < ps.len() {
                assert(final(self).entries@[i] == old(self).entries@[i]);
            }
        }
    }

    fn add_opt_uint(&mut self, key: &str, n: Option<u64>, Ghost(ps): Ghost<Seq<(Seq<char>, ParamSpec)>>)
        requires
            old(self).matches(ps),
        ensures
            final(self).matches(ps + opt_uint_param(key@, n)),
    {
        match n {
            Some(v) => self.add_uint(key, v, Ghost(ps)),
            None => {
                assert(ps + opt_uint_param(key@, n) =~= ps);
            },
        }
    }

    fn add_value(&mut self, key: &str, value: JsonValue, Ghost(ps): Ghost<Seq<(Seq<char>, ParamSpec)>>)
        requires
            old(self).matches(ps),
        ensures
            final(self).matches(ps + value_param(key@, value)),
    {
        let ghost v = value;
        self.add(key, value, Ghost(ps));
        assert(ps.push((key@, ParamSpec::Is(v))) =~= ps + value_param(key@, v));
    }

    fn add_opt_value(&mut self, key: &str, value: Option<JsonValue>, Ghost(ps): Ghost<Seq<(Seq<char>, ParamSpec)>>)
        requires
            old(self).matches(ps),
        ensures
            final(self).matches(ps + opt_value_param(key@, value)),
    {
        match value {
            Some(v) => self.add_value(key, v, Ghost(ps)),
            None => {
                assert(ps + opt_value_param(key@, value) =~= ps);
            },
        }
    }

    fn add_opt_pos(&mut self, key: &str, p: Option<Position>, Ghost(ps): Ghost<Seq<(Seq<char>, ParamSpec)>>)
        requires
            old(self).matches(ps),
        ensures
            final(self).matches(ps + opt_pos_param(key@, p)),
    {
        match p {
            Some(v) => self.add_pos(key, v, Ghost(ps)),
            None => {
                assert(ps + opt_pos_param(key@, p) =~= ps);
            },
        }
    }

    fn call_styled(self, method: &str, style: ReplyStyle, Ghost(ps): Ghost<Seq<(Seq<char>, ParamSpec)>>) -> (r: ToolPlan)
        requires
            self.matches(ps),
        ensures
            plan_matches(r, PlanSpec::Call { method: method@, params: Some(ps), style }),
    {
        ToolPlan::Call { method: String::from_str(method), params: Some(JsonValue::Object(self.entries)), style }
    }

    fn call(self, method: &str, Ghost(ps): Ghost<Seq<(Seq<char>, ParamSpec)>>) -> (r: ToolPlan)
        requires
            self.matches(ps),
        ensures
            plan_matches(r, call_with(method@, ps)),
    {
        ToolPlan::Call { method: String::from_str(method), params: Some(JsonValue::Object(self.entries)), style: ReplyStyle::Pretty }
    }
}

/// Arguments of `s1_player`.
#[derive(Debug, Clone)]
pub struct PlayerArgs {
    pub action: String,
    pub position: Option<Position>,
    pub item_id: Option<String>,
    pub quantity: Option<u64>,
}

/// What `s1_player` does: `get` and `get_inventory` ask for the player's state;
/// `teleport` needs a position; `add_item` needs an item id and a positive
/// quantity (1 when absent).
pub open spec fn player_plan(args: PlayerArgs) -> PlanSpec {
    let a = args.action@;
    if a == "get"@ {
        call_with("get_player"@, Seq::empty())
    } else if a == "get_inventory"@ {
        call_with("get_player_inventory"@, Seq::empty())
    } else if a == "teleport"@ {
        match args.position {
            None => PlanSpec::Reply("Error: position is required for teleport"@),
            Some(p) => call_with("teleport_player"@, pos_param("position"@, p)),
        }
    } else if a == "add_item"@ {
        match args.item_id {
            None => PlanSpec::Reply("Error: item_id is required for add_item"@),
            Some(id) => {
                let q = match args.quantity { Some(q) => q, None => 1u64 };
                if q < 1 {
                    PlanSpec::Reply("Error: quantity must be a positive integer"@)
                } else {
                    call_with("add_item_to_player"@, str_param("item_id"@, id) + uint_param("quantity"@, q))
                }
            },
        }
    } else {
        PlanSpec::Reply(unknown_action_text(a))
    }
}

/// Plans a call of `s1_player` (see `player_plan`).
pub fn plan_player(args: PlayerArgs) -> (r: ToolPlan)
    ensures
        plan_matches(r, player_plan(args)),
{
    let ghost g = args;
    let action = args.action;
    let a = action.as_str();
    if str_equal(a, "get") {
        Params::new().call("get_player", Ghost(Seq::empty()))
    } else if str_equal(a, "get_inventory") {
        Params::new().call("get_player_inventory", Ghost(Seq::empty()))
    } else if str_equal(a, "teleport") {
        match args.position {
            None => reply("Error: position is required for teleport"),
            Some(p) => {
                let mut ps = Params::new();
                ps.add_pos("position", p, Ghost(Seq::empty()));
                assert(Seq::<(Seq<char>, ParamSpec)>::empty() + pos_param("position"@, p) =~= pos_param("position"@, p));
                ps.call("teleport_player", Ghost(pos_param("position"@, p)))
            },
        }
    } else if str_equal(a, "add_item") {
        match args.item_id {
            None => reply("Error: item_id is required for add_item"),
            Some(item_id) => {
                let quantity = match args.quantity { Some(q) => q, None => 1 };
                if quantity < 1 {
                    reply("Error: quantity must be a positive integer")
                } else {
                    let ghost id = item_id;
                    let mut ps = Params::new();
                    ps.add_str("item_id", item_id, Ghost(Seq::empty()));
                    assert(Seq::<(Seq<char>, ParamSpec)>::empty() + str_param("item_id"@, id) =~= str_param("item_id"@, id));
                    ps.add_uint("quantity", quantity, Ghost(str_param("item_id"@, id)));
                    ps.call("add_item_to_player", Ghost(str_param("item_id"@, id) + uint_param("quantity"@, quantity)))
                }
            },
        }
    } else {
        unknown_action(a)
    }
}

/// A call with no params (they are sent as an empty object).
pub open spec fn call_bare(method: Seq<char>) -> PlanSpec {
    PlanSpec::Call { method, params: None, style: ReplyStyle::Pretty }
}

fn call_without_params(method: &str) -> (r: ToolPlan)
    ensures
        plan_matches(r, call_bare(method@)),
{
    ToolPlan::Call { method: String::from_str(method), params: None, style: ReplyStyle::Pretty }
}

/// Arguments of `s1_npc`.
#[derive(Debug, Clone)]
pub struct NpcArgs {
    pub action: String,
    pub npc_id: Option<String>,
    pub filter: Option<String>,
    pub position: Option<Position>,
    pub health: Option<JsonNumber>,
}

/// What `s1_npc` does: `list` (filtered when a filter is given); `get`,
/// `teleport` and `set_health` need an NPC id, and a position or a health value.
pub open spec fn npc_plan(args: NpcArgs) -> PlanSpec {
    let a = args.action@;
    if a == "list"@ {
        match args.filter {
            Some(f) => call_with("list_npcs"@, str_param("filter"@, f)),
            None => call_bare("list_npcs"@),
        }
    } else if a == "get"@ {
        match args.npc_id {
            None => PlanSpec::Reply("Error: npc_id is required"@),
            Some(id) => call_with("get_npc"@, str_param("npc_id"@, id)),
        }
    } else if a == "teleport"@ {
        match (args.npc_id, args.position) {
            (None, _) => PlanSpec::Reply("Error: npc_id is required"@),
            (Some(_), None) => PlanSpec::Reply("Error: position is required"@),
            (Some(id), Some(p)) => call_with("teleport_npc"@, str_param("npc_id"@, id) + pos_param("position"@, p)),
        }
    } else if a == "set_health"@ {
        match (args.npc_id, args.health) {
            (None, _) => PlanSpec::Reply("Error: npc_id is required"@),
            (Some(_), None) => PlanSpec::Reply("Error: health is required"@),
            (Some(id), Some(h)) => call_with("set_npc_health"@,
                str_param("npc_id"@, id) + value_param("health"@, JsonValue::Number(h))),
        }
    } else {
        PlanSpec::Reply(unknown_action_text(a))
    }
}

/// Plans a call of `s1_npc` (see `npc_plan`).
pub fn plan_npc(args: NpcArgs) -> (r: ToolPlan)
    ensures
        plan_matches(r, npc_plan(args)),
{
    let ghost e = Seq::<(Seq<char>, ParamSpec)>::empty();
    let action = args.action;
    let a = action.as_str();
    if str_equal(a, "list") {
        match args.filter {
            Some(f) => {
                let ghost gf = f;
                let mut ps = Params::new();
                ps.add_str("filter", f, Ghost(e));
                assert(e + str_param("filter"@, gf) =~= str_param("filter"@, gf));
                ps.call("list_npcs", Ghost(str_param("filter"@, gf)))
            },
            None => call_without_params("list_npcs"),
        }
    } else if str_equal(a, "get") {
        match args.npc_id {
            None => reply("Error: npc_id is required"),
            Some(id) => {
                let ghost gid = id;
                let mut ps = Params::new();
                ps.add_str("npc_id", id, Ghost(e));
                assert(e + str_param("npc_id"@, gid) =~= str_param("npc_id"@, gid));
                ps.call("get_npc", Ghost(str_param("npc_id"@, gid)))
            },
        }
    } else if str_equal(a, "teleport") {
        match args.npc_id {
            None => reply("Error: npc_id is required"),
            Some(id) => match args.position {
                None => reply("Error: position is required"),
                Some(p) => {
                    let ghost gid = id;
                    let ghost gp = p;
                    let mut ps = Params::new();
                    ps.add_str("npc_id", id, Ghost(e));
                    assert(e + str_param("npc_id"@, gid) =~= str_param("npc_id"@, gid));
                    ps.add_pos("position", p, Ghost(str_param("npc_id"@, gid)));
                    ps.call("teleport_npc", Ghost(str_param("npc_id"@, gid) + pos_param("position"@, gp)))
                },
            },
        }
    } else if str_equal(a, "set_health") {
        match args.npc_id {
            None => reply("Error: npc_id is required"),
            Some(id) => match args.health {
                None => reply("Error: health is required"),
                Some(h) => {
                    let ghost gid = id;
                    let ghost gh = h;
                    let mut ps = Params::new();
                    ps.add_str("npc_id", id, Ghost(e));
                    assert(e + str_param("npc_id"@, gid) =~= str_param("npc_id"@, gid));
                    ps.add_value("health", JsonValue::Number(h), Ghost(str_param("npc_id"@, gid)));
                    ps.call("set_npc_health", Ghost(str_param("npc_id"@, gid) + value_param("health"@, JsonValue::Number(gh))))
                },
            },
        }
    } else {
        unknown_action(a)
    }
}

/// Arguments of `s1_item`.
#[derive(Debug, Clone)]
pub struct ItemArgs {
    pub action: String,
    pub item_id: Option<String>,
    pub category: Option<String>,
    pub position: Option<Position>,
    pub quantity: Option<u64>,
}

/// What `s1_item` does: `list` (by category when one is given); `get` needs an
/// item id; `spawn` needs an item id, a position and a positive quantity (1 when
/// absent, and then not sent).
pub open spec fn item_plan(args: ItemArgs) -> PlanSpec {
    let a = args.action@;
    if a == "list"@ {
        match args.category {
            Some(c) => call_with("list_items"@, str_param("category"@, c)),
            None => call_bare("list_items"@),
        }
    } else if a == "get"@ {
        match args.item_id {
            None => PlanSpec::Reply("Error: item_id is required"@),
            Some(id) => call_with("get_item"@, str_param("item_id"@, id)),
        }
    } else if a == "spawn"@ {
        match (args.item_id, args.position) {
            (None, _) => PlanSpec::Reply("Error: item_id is required"@),
            (Some(_), None) => PlanSpec::Reply("Error: position is required"@),
            (Some(id), Some(p)) => {
                let q = match args.quantity { Some(q) => q, None => 1u64 };
                if q < 1 {
                    PlanSpec::Reply("Error: quantity must be a positive integer"@)
                } else {
                    call_with("spawn_item"@, str_param("item_id"@, id) + pos_param("position"@, p)
                        + (if q != 1 { uint_param("quantity"@, q) } else { Seq::empty() }))
                }
            },
        }
    } else {
        PlanSpec::Reply(unknown_action_text(a))
    }
}

/// Plans a call of `s1_item` (see `item_plan`).
pub fn plan_item(args: ItemArgs) -> (r: ToolPlan)
    ensures
        plan_matches(r, item_plan(args)),
{
    let ghost e = Seq::<(Seq<char>, ParamSpec)>::empty();
    let action = args.action;
    let a = action.as_str();
    if str_equal(a, "list") {
        match args.category {
            Some(c) => {
                let ghost gc = c;
                let mut ps = Params::new();
                ps.add_str("category", c, Ghost(e));
                assert(e + str_param("category"@, gc) =~= str_param("category"@, gc));
                ps.call("list_items", Ghost(str_param("category"@, gc)))
            },
            None => call_without_params("list_items"),
        }
    } else if str_equal(a, "get") {
        match args.item_id {
            None => reply("Error: item_id is required"),
            Some(id) => {
                let ghost gid = id;
                let mut ps = Params::new();
                ps.add_str("item_id", id, Ghost(e));
                assert(e + str_param("item_id"@, gid) =~= str_param("item_id"@, gid));
                ps.call("get_item", Ghost(str_param("item_id"@, gid)))
            },
        }
    } else if str_equal(a, "spawn") {
        match args.item_id {
            None => reply("Error: item_id is required"),
            Some(id) => match args.position {
                None => reply("Error: position is required"),
                Some(p) => {
                    let quantity = match args.quantity { Some(q) => q, None => 1 };
                    if quantity < 1 {
                        return reply("Error: quantity must be a positive integer");
                    }
                    let ghost gid = id;
                    let ghost gp = p;
                    let mut ps = Params::new();
                    ps.add_str("item_id", id, Ghost(e));
                    assert(e + str_param("item_id"@, gid) =~= str_param("item_id"@, gid));
                    ps.add_pos("position", p, Ghost(str_param("item_id"@, gid)));
                    let ghost base = str_param("item_id"@, gid) + pos_param("position"@, gp);
                    if quantity != 1 {
                        ps.add_uint("quantity", quantity, Ghost(base));
                        ps.call("spawn_item", Ghost(base + uint_param("quantity"@, quantity)))
                    } else {
                        assert(base + Seq::<(Seq<char>, ParamSpec)>::empty() =~= base);
                        ps.call("spawn_item", Ghost(base))
                    }
                },
            },
        }
    } else {
        unknown_action(a)
    }
}

/// Arguments of `s1_world`.
#[derive(Debug, Clone)]
pub struct WorldArgs {
    pub action: String,
    pub property_id: Option<String>,
    pub property_name: Option<String>,
    pub vehicle_id: Option<String>,
    pub slot_index: Option<u64>,
    pub last_n_lines: Option<u64>,
    pub first_n_lines: Option<u64>,
    pub keyword: Option<String>,
    pub from_timestamp: Option<String>,
    pub to_timestamp: Option<String>,
    pub include_pattern: Option<String>,
    pub exclude_pattern: Option<String>,
}

/// The log filters of `capture_logs` that were given, in a fixed order.
pub open spec fn log_filter_params(args: WorldArgs) -> Seq<(Seq<char>, ParamSpec)> {
    opt_uint_param("last_n_lines"@, args.last_n_lines) + opt_uint_param("first_n_lines"@, args.first_n_lines)
        + opt_str_param("keyword"@, args.keyword) + opt_str_param("from_timestamp"@, args.from_timestamp)
        + opt_str_param("to_timestamp"@, args.to_timestamp) + opt_str_param("include_pattern"@, args.include_pattern)
        + opt_str_param("exclude_pattern"@, args.exclude_pattern)
}

/// What `s1_world` does: state, location, vehicle, log and save queries;
/// `get_location` needs a property id or name, `get_vehicle` a vehicle id,
/// `load_save` a slot index.
pub open spec fn world_plan(args: WorldArgs) -> PlanSpec {
    let a = args.action@;
    if a == "get_state"@ {
        call_with("get_game_state"@, Seq::empty())
    } else if a == "list_locations"@ {
        call_with("list_properties"@, Seq::empty())
    } else if a == "get_location"@ {
        if args.property_id is None && args.property_name is None {
            PlanSpec::Reply("Error: property_id or property_name is required"@)
        } else {
            call_with("get_property"@, opt_str_param("property_id"@, args.property_id)
                + opt_str_param("property_name"@, args.property_name))
        }
    } else if a == "list_vehicles"@ {
        call_with("list_vehicles"@, Seq::empty())
    } else if a == "get_vehicle"@ {
        match args.vehicle_id {
            None => PlanSpec::Reply("Error: vehicle_id is required"@),
            Some(id) => call_with("get_vehicle"@, str_param("vehicle_id"@, id)),
        }
    } else if a == "capture_logs"@ {
        PlanSpec::Call { method: "capture_logs"@, params: Some(log_filter_params(args)), style: ReplyStyle::Logs }
    } else if a == "list_saves"@ {
        PlanSpec::Call { method: "list_saves"@, params: Some(Seq::empty()), style: ReplyStyle::Saves }
    } else if a == "load_save"@ {
        match args.slot_index {
            None => PlanSpec::Reply("Error: slot_index is required"@),
            Some(i) => PlanSpec::Call { method: "load_save"@, params: Some(uint_param("slot_index"@, i)), style: ReplyStyle::LoadSave },
        }
    } else {
        PlanSpec::Reply(unknown_action_text(a))
    }
}

/// Plans a call of `s1_world` (see `world_plan`).
pub fn plan_world(args: WorldArgs) -> (r: ToolPlan)
    ensures
        plan_matches(r, world_plan(args)),
{
    let ghost g = args;
    let ghost e = Seq::<(Seq<char>, ParamSpec)>::empty();
    let action = args.action;
    let a = action.as_str();
    if str_equal(a, "get_state") {
        Params::new().call("get_game_state", Ghost(e))
    } else if str_equal(a, "list_locations") {
        Params::new().call("list_properties", Ghost(e))
    } else if str_equal(a, "get_location") {
        if args.property_id.is_none() && args.property_name.is_none() {
            return reply("Error: property_id or property_name is required");
        }
        let mut ps = Params::new();
        ps.add_opt_str("property_id", args.property_id, Ghost(e));
        assert(e + opt_str_param("property_id"@, g.property_id) =~= opt_str_param("property_id"@, g.property_id));
        ps.add_opt_str("property_name", args.property_name, Ghost(opt_str_param("property_id"@, g.property_id)));
        ps.call("get_property", Ghost(opt_str_param("property_id"@, g.property_id)
            + opt_str_param("property_name"@, g.property_name)))
    } else if str_equal(a, "list_vehicles") {
        Params::new().call("list_vehicles", Ghost(e))
    } else if str_equal(a, "get_vehicle") {
        match args.vehicle_id {
            None => reply("Error: vehicle_id is required"),
            Some(id) => {
                let ghost gid = id;
                let mut ps = Params::new();
                ps.add_str("vehicle_id", id, Ghost(e));
                assert(e + str_param("vehicle_id"@, gid) =~= str_param("vehicle_id"@, gid));
                ps.call("get_vehicle", Ghost(str_param("vehicle_id"@, gid)))
            },
        }
    } else if str_equal(a, "capture_logs") {
        let mut ps = Params::new();
        let ghost p1 = opt_uint_param("last_n_lines"@, g.last_n_lines);
        ps.add_opt_uint("last_n_lines", args.last_n_lines, Ghost(e));
        assert(e + p1 =~= p1);
        let ghost p2 = p1 + opt_uint_param("first_n_lines"@, g.first_n_lines);
        ps.add_opt_uint("first_n_lines", args.first_n_lines, Ghost(p1));
        let ghost p3 = p2 + opt_str_param("keyword"@, g.keyword);
        ps.add_opt_str("keyword", args.keyword, Ghost(p2));
        let ghost p4 = p3 + opt_str_param("from_timestamp"@, g.from_timestamp);
        ps.add_opt_str("from_timestamp", args.from_timestamp, Ghost(p3));
        let ghost p5 = p4 + opt_str_param("to_timestamp"@, g.to_timestamp);
        ps.add_opt_str("to_timestamp", args.to_timestamp, Ghost(p4));
        let ghost p6 = p5 + opt_str_param("include_pattern"@, g.include_pattern);
        ps.add_opt_str("include_pattern", args.include_pattern, Ghost(p5));
        ps.add_opt_str("exclude_pattern", args.exclude_pattern, Ghost(p6));
        ps.call_styled("capture_logs", ReplyStyle::Logs, Ghost(log_filter_params(g)))
    } else if str_equal(a, "list_saves") {
        Params::new().call_styled("list_saves", ReplyStyle::Saves, Ghost(e))
    } else if str_equal(a, "load_save") {
        match args.slot_index {
            None => reply("Error: slot_index is required"),
            Some(i) => {
                let mut ps = Params::new();
                ps.add_uint("slot_index", i, Ghost(e));
                assert(e + uint_param("slot_index"@, i) =~= uint_param("slot_index"@, i));
                ps.call_styled("load_save", ReplyStyle::LoadSave, Ghost(uint_param("slot_index"@, i)))
            },
        }
    } else {
        unknown_action(a)
    }
}

/// Arguments of `s1_inspect`.
#[derive(Debug)]
pub struct InspectArgs {
    pub action: String,
    pub object_name: Option<String>,
    pub object_type: Option<String>,
    pub component_type: Option<String>,
    pub inspected_type: Option<String>,
    pub member_path: Option<String>,
    pub field_name: Option<String>,
    pub property_name: Option<String>,
    pub method_name: Option<String>,
    pub value: Option<JsonValue>,
    pub args: Option<Vec<JsonValue>>,
    pub name_pattern: Option<String>,
    pub tag: Option<String>,
    pub layer: Option<String>,
    pub pattern: Option<String>,
    pub component_types_only: Option<bool>,
    pub include_inactive: Option<bool>,
    pub scene_name: Option<String>,
    pub max_depth: Option<u32>,
    pub member_type: Option<String>,
    pub active: Option<bool>,
    pub position: Option<Position>,
    pub rotation: Option<Position>,
    pub scale: Option<Position>,
}

/// A boolean, as a JSON value.
pub open spec fn opt_bool_value(b: Option<bool>) -> Option<JsonValue> {
    match b {
        Some(v) => Some(JsonValue::Bool(v)),
        None => None,
    }
}

/// A small unsigned integer, as a JSON value.
pub open spec fn opt_u32_value(n: Option<u32>) -> Option<JsonValue> {
    match n {
        Some(v) => Some(JsonValue::Number(JsonNumber::PosInt(v as u64))),
        None => None,
    }
}

/// A list of values, as a JSON array.
pub open spec fn opt_array_value(a: Option<Vec<JsonValue>>) -> Option<JsonValue> {
    match a {
        Some(v) => Some(JsonValue::Array(v)),
        None => None,
    }
}

/// The answer when the object name is missing.
pub open spec fn need_object_text() -> Seq<char> {
    "Error: object_name required for this action"@
}

/// What `s1_inspect` does: finds, lists and inspects GameObjects, components,
/// types and members, reads and writes fields and properties, calls methods and
/// sets transforms and active state; each action needs the arguments it names.
pub open spec fn inspect_plan(args: InspectArgs) -> PlanSpec {
    let a = args.action@;
    if a == "find_objects"@ {
        call_with("find_gameobjects"@, opt_str_param("name_pattern"@, args.name_pattern) + opt_str_param("tag"@, args.tag)
            + opt_str_param("layer"@, args.layer) + opt_str_param("component_type"@, args.component_type))
    } else if a == "find_by_type"@ {
        match args.component_type {
            None => PlanSpec::Reply("Error: component_type required for this action"@),
            Some(c) => call_with("find_objects_by_type"@, str_param("component_type"@, c)
                + opt_value_param("include_inactive"@, opt_bool_value(args.include_inactive))),
        }
    } else if a == "search_types"@ {
        match args.pattern {
            None => PlanSpec::Reply("Error: pattern required for this action"@),
            Some(p) => call_with("search_types"@, str_param("pattern"@, p)
                + opt_value_param("component_types_only"@, opt_bool_value(args.component_types_only))),
        }
    } else if a == "list_scenes"@ {
        call_with("list_scenes"@, Seq::empty())
    } else if a == "get_hierarchy"@ {
        call_with("get_scene_hierarchy"@, opt_str_param("scene_name"@, args.scene_name))
    } else if a == "get_scene_objects"@ {
        call_with("get_scene_objects"@, opt_str_param("scene_name"@, args.scene_name))
    } else if a == "inspect_object"@ {
        match args.object_name {
            None => PlanSpec::Reply(need_object_text()),
            Some(o) => call_with("inspect_object"@, str_param("object_name"@, o) + opt_str_param("object_type"@, args.object_type)),
        }
    } else if a == "list_components"@ {
        match args.object_name {
            None => PlanSpec::Reply(need_object_text()),
            Some(o) => call_with("list_components"@, str_param("object_name"@, o)),
        }
    } else if a == "get_component"@ {
        match (args.object_name, args.component_type) {
            (Some(o), Some(c)) => call_with("get_component_by_type"@, str_param("object_name"@, o) + str_param("component_type"@, c)),
            _ => PlanSpec::Reply("Error: object_name, component_type required for this action"@),
        }
    } else if a == "inspect_component"@ {
        match args.object_name {
            None => PlanSpec::Reply(need_object_text()),
            Some(o) => call_with("inspect_component"@, str_param("object_name"@, o)
                + opt_str_param("component_type"@, args.component_type)
                + opt_value_param("max_depth"@, opt_u32_value(args.max_depth))),
        }
    } else if a == "get_member"@ {
        match (args.object_name, args.member_path) {
            (Some(o), Some(m)) => call_with("get_member_value"@, str_param("object_name"@, o) + str_param("member_path"@, m)
                + opt_str_param("component_type"@, args.component_type)),
            _ => PlanSpec::Reply("Error: object_name, member_path required for this action"@),
        }
    } else if a == "inspect_type"@ {
        match args.inspected_type {
            None => PlanSpec::Reply("Error: type_name required for this action"@),
            Some(t) => call_with("inspect_type"@, str_param("type_name"@, t)),
        }
    } else if a == "list_members"@ {
        match args.inspected_type {
            None => PlanSpec::Reply("Error: type_name required for this action"@),
            Some(t) => call_with("list_members"@, str_param("type_name"@, t) + opt_str_param("member_type"@, args.member_type)),
        }
    } else if a == "get_transform"@ {
        match args.object_name {
            None => PlanSpec::Reply(need_object_text()),
            Some(o) => call_with("get_transform"@, str_param("object_name"@, o)),
        }
    } else if a == "is_active"@ {
        match args.object_name {
            None => PlanSpec::Reply(need_object_text()),
            Some(o) => call_with("is_active"@, str_param("object_name"@, o)),
        }
    } else if a == "get_field"@ {
        match (args.object_name, args.field_name) {
            (Some(o), Some(f)) => call_with("get_field"@, str_param("object_name"@, o) + str_param("field_name"@, f)
                + opt_str_param("component_type"@, args.component_type)),
            _ => PlanSpec::Reply("Error: object_name, field_name required for this action"@),
        }
    } else if a == "set_field"@ {
        match (args.object_name, args.field_name, args.value) {
            (None, _, _) => PlanSpec::Reply(need_object_text()),
            (Some(_), None, _) => PlanSpec::Reply("Error: field_name required for this action"@),
            (Some(_), Some(_), None) => PlanSpec::Reply("Error: value is required for set_field"@),
            (Some(o), Some(f), Some(v)) => call_with("set_field"@, str_param("object_name"@, o) + str_param("field_name"@, f)
                + value_param("value"@, v) + opt_str_param("component_type"@, args.component_type)),
        }
    } else if a == "get_component_property"@ {
        match (args.object_name, args.component_type, args.property_name) {
            (Some(o), Some(c), Some(p)) => call_with("get_component_property"@, str_param("object_name"@, o)
                + str_param("component_type"@, c) + str_param("property_name"@, p)),
            _ => PlanSpec::Reply("Error: object_name, component_type, property_name required for this action"@),
        }
    } else if a == "set_component_property"@ {
        match (args.object_name, args.component_type, args.property_name, args.value) {
            (None, _, _, _) => PlanSpec::Reply(need_object_text()),
            (Some(_), None, _, _) => PlanSpec::Reply("Error: component_type required for this action"@),
            (Some(_), Some(_), None, _) => PlanSpec::Reply("Error: property_name required for this action"@),
            (Some(_), Some(_), Some(_), None) => PlanSpec::Reply("Error: value is required"@),
            (Some(o), Some(c), Some(p), Some(v)) => call_with("set_component_property"@, str_param("object_name"@, o)
                + str_param("component_type"@, c) + str_param("property_name"@, p) + value_param("value"@, v)),
        }
    } else if a == "call_method"@ {
        match (args.object_name, args.method_name) {
            (Some(o), Some(m)) => call_with("call_method"@, str_param("object_name"@, o) + str_param("method_name"@, m)
                + opt_value_param("args"@, opt_array_value(args.args))
                + opt_str_param("component_type"@, args.component_type)),
            _ => PlanSpec::Reply("Error: object_name, method_name required for this action"@),
        }
    } else if a == "set_transform"@ {
        match args.object_name {
            None => PlanSpec::Reply(need_object_text()),
            Some(o) => call_with("set_transform"@, str_param("object_name"@, o) + opt_pos_param("position"@, args.position)
                + opt_pos_param("rotation"@, args.rotation) + opt_pos_param("scale"@, args.scale)),
        }
    } else if a == "set_active"@ {
        match (args.object_name, args.active) {
            (None, _) => PlanSpec::Reply(need_object_text()),
            (Some(_), None) => PlanSpec::Reply("Error: active is required"@),
            (Some(o), Some(b)) => call_with("set_active"@, str_param("object_name"@, o) + value_param("active"@, JsonValue::Bool(b))),
        }
    } else {
        PlanSpec::Reply(unknown_action_text(a))
    }
}

fn bool_value(b: Option<bool>) -> (r: Option<JsonValue>)
    ensures
        r == opt_bool_value(b),
{
    match b {
        Some(v) => Some(JsonValue::Bool(v)),
        None => None,
    }
}

/// Plans a call of `s1_inspect` (see `inspect_plan`).
#[verifier::rlimit(50)]
pub fn plan_inspect(args: InspectArgs) -> (r: ToolPlan)
    ensures
        plan_matches(r, inspect_plan(args)),
{
    let ghost g = args;
    let ghost e = Seq::<(Seq<char>, ParamSpec)>::empty();
    let action = args.action;
    let a = action.as_str();
    let mut ps = Params::new();
    if str_equal(a, "find_objects") {
        let ghost p1 = opt_str_param("name_pattern"@, g.name_pattern);
        ps.add_opt_str("name_pattern", args.name_pattern, Ghost(e));
        assert(e + p1 =~= p1);
        let ghost p2 = p1 + opt_str_param("tag"@, g.tag);
        ps.add_opt_str("tag", args.tag, Ghost(p1));
        let ghost p3 = p2 + opt_str_param("layer"@, g.layer);
        ps.add_opt_str("layer", args.layer, Ghost(p2));
        ps.add_opt_str("component_type", args.component_type, Ghost(p3));
        ps.call("find_gameobjects", Ghost(p3 + opt_str_param("component_type"@, g.component_type)))
    } else if str_equal(a, "find_by_type") {
        let Some(c) = args.component_type else {
            return reply("Error: component_type required for this action");
        };
        let ghost p1 = str_param("component_type"@, c);
        ps.add_str("component_type", c, Ghost(e));
        assert(e + p1 =~= p1);
        ps.add_opt_value("include_inactive", bool_value(args.include_inactive), Ghost(p1));
        ps.call("find_objects_by_type", Ghost(p1 + opt_value_param("include_inactive"@, opt_bool_value(g.include_inactive))))
    } else if str_equal(a, "search_types") {
        let Some(p) = args.pattern else {
            return reply("Error: pattern required for this action");
        };
        let ghost p1 = str_param("pattern"@, p);
        ps.add_str("pattern", p, Ghost(e));
        assert(e + p1 =~= p1);
        ps.add_opt_value("component_types_only", bool_value(args.component_types_only), Ghost(p1));
        ps.call("search_types", Ghost(p1 + opt_value_param("component_types_only"@, opt_bool_value(g.component_types_only))))
    } else if str_equal(a, "list_scenes") {
        ps.call("list_scenes", Ghost(e))
    } else if str_equal(a, "get_hierarchy") {
        ps.add_opt_str("scene_name", args.scene_name, Ghost(e));
        assert(e + opt_str_param("scene_name"@, g.scene_name) =~= opt_str_param("scene_name"@, g.scene_name));
        ps.call("get_scene_hierarchy", Ghost(opt_str_param("scene_name"@, g.scene_name)))
    } else if str_equal(a, "get_scene_objects") {
        ps.add_opt_str("scene_name", args.scene_name, Ghost(e));
        assert(e + opt_str_param("scene_name"@, g.scene_name) =~= opt_str_param("scene_name"@, g.scene_name));
        ps.call("get_scene_objects", Ghost(opt_str_param("scene_name"@, g.scene_name)))
    } else if str_equal(a, "inspect_object") {
        let Some(o) = args.object_name else {
            return reply("Error: object_name required for this action");
        };
        let ghost p1 = str_param("object_name"@, o);
        ps.add_str("object_name", o, Ghost(e));
        assert(e + p1 =~= p1);
        ps.add_opt_str("object_type", args.object_type, Ghost(p1));
        ps.call("inspect_object", Ghost(p1 + opt_str_param("object_type"@, g.object_type)))
    } else if str_equal(a, "list_components") {
        let Some(o) = args.object_name else {
            return reply("Error: object_name required for this action");
        };
        let ghost p1 = str_param("object_name"@, o);
        ps.add_str("object_name", o, Ghost(e));
        assert(e + p1 =~= p1);
        ps.call("list_components", Ghost(p1))
    } else if str_equal(a, "get_component") {
        let (Some(o), Some(c)) = (args.object_name, args.component_type) else {
            return reply("Error: object_name, component_type required for this action");
        };
        let ghost p1 = str_param("object_name"@, o);
        ps.add_str("object_name", o, Ghost(e));
        assert(e + p1 =~= p1);
        ps.add_str("component_type", c, Ghost(p1));
        ps.call("get_component_by_type", Ghost(p1 + str_param("component_type"@, c)))
    } else if str_equal(a, "inspect_component") {
        let Some(o) = args.object_name else {
            return reply("Error: object_name required for this action");
        };
        let ghost p1 = str_param("object_name"@, o);
        ps.add_str("object_name", o, Ghost(e));
        assert(e + p1 =~= p1);
        let ghost p2 = p1 + opt_str_param("component_type"@, g.component_type);
        ps.add_opt_str("component_type", args.component_type, Ghost(p1));
        let depth = match args.max_depth {
            Some(d) => Some(JsonValue::Number(JsonNumber::PosInt(d as u64))),
            None => None,
        };
        ps.add_opt_value("max_depth", depth, Ghost(p2));
        ps.call("inspect_component", Ghost(p2 + opt_value_param("max_depth"@, opt_u32_value(g.max_depth))))
    } else if str_equal(a, "get_member") {
        let (Some(o), Some(m)) = (args.object_name, args.member_path) else {
            return reply("Error: object_name, member_path required for this action");
        };
        let ghost p1 = str_param("object_name"@, o);
        ps.add_str("object_name", o, Ghost(e));
        assert(e + p1 =~= p1);
        let ghost p2 = p1 + str_param("member_path"@, m);
        ps.add_str("member_path", m, Ghost(p1));
        ps.add_opt_str("component_type", args.component_type, Ghost(p2));
        ps.call("get_member_value", Ghost(p2 + opt_str_param("component_type"@, g.component_type)))
    } else if str_equal(a, "inspect_type") {
        let Some(t) = args.inspected_type else {
            return reply("Error: type_name required for this action");
        };
        let ghost p1 = str_param("type_name"@, t);
        ps.add_str("type_name", t, Ghost(e));
        assert(e + p1 =~= p1);
        ps.call("inspect_type", Ghost(p1))
    } else if str_equal(a, "list_members") {
        let Some(t) = args.inspected_type else {
            return reply("Error: type_name required for this action");
        };
        let ghost p1 = str_param("type_name"@, t);
        ps.add_str("type_name", t, Ghost(e));
        assert(e + p1 =~= p1);
        ps.add_opt_str("member_type", args.member_type, Ghost(p1));
        ps.call("list_members", Ghost(p1 + opt_str_param("member_type"@, g.member_type)))
    } else if str_equal(a, "get_transform") {
        let Some(o) = args.object_name else {
            return reply("Error: object_name required for this action");
        };
        let ghost p1 = str_param("object_name"@, o);
        ps.add_str("object_name", o, Ghost(e));
        assert(e + p1 =~= p1);
        ps.call("get_transform", Ghost(p1))
    } else if str_equal(a, "is_active") {
        let Some(o) = args.object_name else {
            return reply("Error: object_name required for this action");
        };
        let ghost p1 = str_param("object_name"@, o);
        ps.add_str("object_name", o, Ghost(e));
        assert(e + p1 =~= p1);
        ps.call("is_active", Ghost(p1))
    } else if str_equal(a, "get_field") {
        let (Some(o), Some(f)) = (args.object_name, args.field_name) else {
            return reply("Error: object_name, field_name required for this action");
        };
        let ghost p1 = str_param("object_name"@, o);
        ps.add_str("object_name", o, Ghost(e));
        assert(e + p1 =~= p1);
        let ghost p2 = p1 + str_param("field_name"@, f);
        ps.add_str("field_name", f, Ghost(p1));
        ps.add_opt_str("component_type", args.component_type, Ghost(p2));
        ps.call("get_field", Ghost(p2 + opt_str_param("component_type"@, g.component_type)))
    } else if str_equal(a, "set_field") {
        let Some(o) = args.object_name else {
            return reply("Error: object_name required for this action");
        };
        let Some(f) = args.field_name else {
            return reply("Error: field_name required for this action");
        };
        let Some(v) = args.value else {
            return reply("Error: value is required for set_field");
        };
        let ghost p1 = str_param("object_name"@, o);
        ps.add_str("object_name", o, Ghost(e));
        assert(e + p1 =~= p1);
        let ghost p2 = p1 + str_param("field_name"@, f);
        ps.add_str("field_name", f, Ghost(p1));
        let ghost p3 = p2 + value_param("value"@, v);
        ps.add_value("value", v, Ghost(p2));
        ps.add_opt_str("component_type", args.component_type, Ghost(p3));
        ps.call("set_field", Ghost(p3 + opt_str_param("component_type"@, g.component_type)))
    } else if str_equal(a, "get_component_property") {
        let (Some(o), Some(c), Some(p)) = (args.object_name, args.component_type, args.property_name) else {
            return reply("Error: object_name, component_type, property_name required for this action");
        };
        let ghost p1 = str_param("object_name"@, o);
        ps.add_str("object_name", o, Ghost(e));
        assert(e + p1 =~= p1);
        let ghost p2 = p1 + str_param("component_type"@, c);
        ps.add_str("component_type", c, Ghost(p1));
        ps.add_str("property_name", p, Ghost(p2));
        ps.call("get_component_property", Ghost(p2 + str_param("property_name"@, p)))
    } else if str_equal(a, "set_component_property") {
        let Some(o) = args.object_name else {
            return reply("Error: object_name required for this action");
        };
        let Some(c) = args.component_type else {
            return reply("Error: component_type required for this action");
        };
        let Some(p) = args.property_name else {
            return reply("Error: property_name required for this action");
        };
        let Some(v) = args.value else {
            return reply("Error: value is required");
        };
        let ghost p1 = str_param("object_name"@, o);
        ps.add_str("object_name", o, Ghost(e));
        assert(e + p1 =~= p1);
        let ghost p2 = p1 + str_param("component_type"@, c);
        ps.add_str("component_type", c, Ghost(p1));
        let ghost p3 = p2 + str_param("property_name"@, p);
        ps.add_str("property_name", p, Ghost(p2));
        ps.add_value("value", v, Ghost(p3));
        ps.call("set_component_property", Ghost(p3 + value_param("value"@, v)))
    } else if str_equal(a, "call_method") {
        let (Some(o), Some(m)) = (args.object_name, args.method_name) else {
            return reply("Error: object_name, method_name required for this action");
        };
        let ghost p1 = str_param("object_name"@, o);
        ps.add_str("object_name", o, Ghost(e));
        assert(e + p1 =~= p1);
        let ghost p2 = p1 + str_param("method_name"@, m);
        ps.add_str("method_name", m, Ghost(p1));
        let list = match args.args {
            Some(v) => Some(JsonValue::Array(v)),
            None => None,
        };
        let ghost p3 = p2 + opt_value_param("args"@, opt_array_value(g.args));
        ps.add_opt_value("args", list, Ghost(p2));
        ps.add_opt_str("component_type", args.component_type, Ghost(p3));
        ps.call("call_method", Ghost(p3 + opt_str_param("component_type"@, g.component_type)))
    } else if str_equal(a, "set_transform") {
        let Some(o) = args.object_name else {
            return reply("Error: object_name required for this action");
        };
        let ghost p1 = str_param("object_name"@, o);
        ps.add_str("object_name", o, Ghost(e));
        assert(e + p1 =~= p1);
        let ghost p2 = p1 + opt_pos_param("position"@, g.position);
        ps.add_opt_pos("position", args.position, Ghost(p1));
        let ghost p3 = p2 + opt_pos_param("rotation"@, g.rotation);
        ps.add_opt_pos("rotation", args.rotation, Ghost(p2));
        ps.add_opt_pos("scale", args.scale, Ghost(p3));
        ps.call("set_transform", Ghost(p3 + opt_pos_param("scale"@, g.scale)))
    } else if str_equal(a, "set_active") {
        let Some(o) = args.object_name else {
            return reply("Error: object_name required for this action");
        };
        let Some(b) = args.active else {
            return reply("Error: active is required");
        };
        let ghost p1 = str_param("object_name"@, o);
        ps.add_str("object_name", o, Ghost(e));
        assert(e + p1 =~= p1);
        ps.add_value("active", JsonValue::Bool(b), Ghost(p1));
        ps.call("set_active", Ghost(p1 + value_param("active"@, JsonValue::Bool(b))))
    } else {
        unknown_action(a)
    }
}

/// Arguments of `s1_game`.
#[derive(Debug, Clone)]
pub struct GameArgs {
    pub action: String,
    pub version: Option<String>,
    pub enable_debugger: Option<bool>,
    pub wait_for_connection: Option<bool>,
    pub topic: Option<String>,
    pub tokens: Option<u32>,
}

/// What a call of `s1_game` does.
#[derive(Debug)]
pub enum GamePlan {
    /// Answer with this text at once.
    Reply(String),
    /// Launch the game.
    Launch(LaunchGameOptions),
    /// Close the game.
    Close,
    /// Describe the running game processes.
    ProcessInfo,
    /// Search the S1API documentation.
    SearchDocs { topic: String, tokens: u32 },
}

/// The version text given to `launch` (empty when absent).
pub open spec fn version_arg(v: Option<String>) -> Seq<char> {
    match v {
        Some(s) => s@,
        None => Seq::empty(),
    }
}

/// What `s1_game` does: `launch` needs a valid version (the debugger is off and
/// waiting for the mod on unless given); `close` and `process_info` need
/// nothing; `search_docs` needs a topic and a positive token budget (5000 when
/// absent).
pub open spec fn game_plan_is(args: GameArgs, r: GamePlan) -> bool {
    let a = args.action@;
    if a == "launch"@ {
        let v = version_arg(args.version);
        match version_from_lowered(v, lowercase(v)) {
            Err(m) => r matches GamePlan::Reply(t) && t@ == m,
            Ok(version) => r matches GamePlan::Launch(o) && o.version == version
                && o.enable_debugger == (match args.enable_debugger { Some(b) => b, None => false })
                && o.wait_for_connection == (match args.wait_for_connection { Some(b) => b, None => true }),
        }
    } else if a == "close"@ {
        r is Close
    } else if a == "process_info"@ {
        r is ProcessInfo
    } else if a == "search_docs"@ {
        match args.topic {
            None => r matches GamePlan::Reply(t) && t@ == "Error: topic is required for search_docs"@,
            Some(topic) => {
                let tokens = match args.tokens { Some(t) => t, None => 5000u32 };
                if tokens < 1 {
                    r matches GamePlan::Reply(t) && t@ == "Error: tokens must be a positive integer"@
                } else {
                    r matches GamePlan::SearchDocs { topic: t, tokens: n } && t == topic && n == tokens
                }
            },
        }
    } else {
        r matches GamePlan::Reply(t) && t@ == unknown_action_text(a)
    }
}

/// Plans a call of `s1_game` (see `game_plan_is`).
pub fn plan_game(args: GameArgs) -> (r: GamePlan)
    ensures
        game_plan_is(args, r),
        args.action@ == "launch"@ && is_ascii_text(version_arg(args.version)) ==> match version_from_lowered(
            version_arg(args.version),
            ascii_lowered(version_arg(args.version)),
        ) {
            Err(m) => r matches GamePlan::Reply(t) && t@ == m,
            Ok(version) => r matches GamePlan::Launch(o) && o.version == version,
        },
{
    let action = args.action;
    let a = action.as_str();
    if str_equal(a, "launch") {
        let version_input = match &args.version {
            Some(v) => String::from_str(v.as_str()),
            None => String::new(),
        };
        match GameVersion::parse(version_input.as_str()) {
            Err(m) => GamePlan::Reply(m),
            Ok(version) => GamePlan::Launch(LaunchGameOptions {
                version,
                enable_debugger: match args.enable_debugger { Some(b) => b, None => false },
                wait_for_connection: match args.wait_for_connection { Some(b) => b, None => true },
            }),
        }
    } else if str_equal(a, "close") {
        GamePlan::Close
    } else if str_equal(a, "process_info") {
        GamePlan::ProcessInfo
    } else if str_equal(a, "search_docs") {
        let Some(topic) = args.topic else {
            return GamePlan::Reply(String::from_str("Error: topic is required for search_docs"));
        };
        let tokens = match args.tokens { Some(t) => t, None => 5000 };
        if tokens < 1 {
            return GamePlan::Reply(String::from_str("Error: tokens must be a positive integer"));
        }
        GamePlan::SearchDocs { topic, tokens }
    } else {
        let mut m: Vec<char> = Vec::new();
        push_str(&mut m, "Error: Unknown action '");
        push_str(&mut m, a);
        push_str(&mut m, "'");
        assert(m@ =~= unknown_action_text(a@));
        GamePlan::Reply(string_from_chars(&m))
    }
}


/// The value the planned call sends under `key`: none when the plan is an
/// answer, when the call sends no params, or when it has no such key.
pub open spec fn sent_value(plan: ToolPlan, key: Seq<char>) -> Option<JsonValue> {
    match plan {
        ToolPlan::Call { params: Some(JsonValue::Object(es)), .. } => obj_get(es@, key),
        _ => None,
    }
}

/// Whether the plan calls the mod's method `method`.
pub open spec fn calls_method(plan: ToolPlan, method: Seq<char>) -> bool {
    plan matches ToolPlan::Call { method: m, .. } && m@ == method
}

/// The first parameter a plan states under `key`.
pub open spec fn param_lookup(ps: Seq<(Seq<char>, ParamSpec)>, key: Seq<char>) -> Option<ParamSpec>
    decreases ps.len(),
{
    if ps.len() == 0 {
        None
    } else if ps[0].0 == key {
        Some(ps[0].1)
    } else {
        param_lookup(ps.drop_first(), key)
    }
}

proof fn lemma_param_lookup_concat(a: Seq<(Seq<char>, ParamSpec)>, b: Seq<(Seq<char>, ParamSpec)>, key: Seq<char>)
    ensures
        param_lookup(a + b, key) == (if param_lookup(a, key) is Some { param_lookup(a, key) } else { param_lookup(b, key) }),
    decreases a.len(),
{
    if a.len() == 0 {
        assert(a + b =~= b);
    } else {
        assert((a + b).drop_first() =~= a.drop_first() + b);
        lemma_param_lookup_concat(a.drop_first(), b, key);
    }
}

proof fn lemma_param_lookup_single(k: Seq<char>, p: ParamSpec, key: Seq<char>)
    ensures
        param_lookup(seq![(k, p)], key) == (if k == key { Some(p) } else { None::<ParamSpec> }),
{
    reveal_with_fuel(param_lookup, 2);
    assert(seq![(k, p)].drop_first() =~= Seq::<(Seq<char>, ParamSpec)>::empty());
}

proof fn lemma_obj_get_of_entries(es: Seq<(String, JsonValue)>, ps: Seq<(Seq<char>, ParamSpec)>, key: Seq<char>)
    requires
        entries_match(es, ps),
    ensures
        param_lookup(ps, key) is None ==> obj_get(es, key) is None,
        param_lookup(ps, key) matches Some(ParamSpec::Is(v)) ==> obj_get(es, key) == Some(v),
    decreases es.len(),
{
    if es.len() > 0 {
        assert forall|i: int| 0 <= i < es.drop_first().len() implies es.drop_first()[i].0@ == ps.drop_first()[i].0
            && param_matches(es.drop_first()[i].1, ps.drop_first()[i].1) by {
            assert(es.drop_first()[i] == es[i + 1]);
            assert(ps.drop_first()[i] == ps[i + 1]);
        }
        lemma_obj_get_of_entries(es.drop_first(), ps.drop_first(), key);
    }
}

/// What a call that matches a stated call sends: its method, and under each
/// key the value stated for it (nothing under a key it does not state).
proof fn lemma_sent_of_call(r: ToolPlan, method: Seq<char>, ps: Seq<(Seq<char>, ParamSpec)>, style: ReplyStyle, key: Seq<char>)
    requires
        plan_matches(r, PlanSpec::Call { method, params: Some(ps), style }),
    ensures
        calls_method(r, method),
        param_lookup(ps, key) is None ==> sent_value(r, key) is None,
        param_lookup(ps, key) matches Some(ParamSpec::Is(v)) ==> sent_value(r, key) == Some(v),
{
    match r {
        ToolPlan::Call { params: Some(JsonValue::Object(es)), .. } => lemma_obj_get_of_entries(es@, ps, key),
        _ => {},
    }
}

proof fn lemma_not_an_earlier_inspect_action(a: Seq<char>)
    requires
        a == "set_active"@,
    ensures
        a != "find_objects"@,
        a != "find_by_type"@,
        a != "search_types"@,
        a != "list_scenes"@,
        a != "get_hierarchy"@,
        a != "get_scene_objects"@,
        a != "inspect_object"@,
        a != "list_components"@,
        a != "get_component"@,
        a != "inspect_component"@,
        a != "get_member"@,
        a != "inspect_type"@,
        a != "list_members"@,
        a != "get_transform"@,
        a != "is_active"@,
        a != "get_field"@,
        a != "set_field"@,
        a != "get_component_property"@,
        a != "set_component_property"@,
        a != "call_method"@,
        a != "set_transform"@,
{
    reveal_strlit("set_active");
    assert(a.len() == 10);
    reveal_strlit("find_objects");
    assert("find_objects"@.len() == 12);
    reveal_strlit("find_by_type");
    assert("find_by_type"@.len() == 12);
    reveal_strlit("search_types");
    assert("search_types"@.len() == 12);
    reveal_strlit("list_scenes");
    assert("list_scenes"@.len() == 11);
    reveal_strlit("get_hierarchy");
    assert("get_hierarchy"@.len() == 13);
    reveal_strlit("get_scene_objects");
    assert("get_scene_objects"@.len() == 17);
    reveal_strlit("inspect_object");
    assert("inspect_object"@.len() == 14);
    reveal_strlit("list_components");
    assert("list_components"@.len() == 15);
    reveal_strlit("get_component");
    assert("get_component"@.len() == 13);
    reveal_strlit("inspect_component");
    assert("inspect_component"@.len() == 17);
    reveal_strlit("get_member");
    assert(a[0] == 's' && "get_member"@[0] == 'g');
    reveal_strlit("inspect_type");
    assert("inspect_type"@.len() == 12);
    reveal_strlit("list_members");
    assert("list_members"@.len() == 12);
    reveal_strlit("get_transform");
    assert("get_transform"@.len() == 13);
    reveal_strlit("is_active");
    assert("is_active"@.len() == 9);
    reveal_strlit("get_field");
    assert("get_field"@.len() == 9);
    reveal_strlit("set_field");
    assert("set_field"@.len() == 9);
    reveal_strlit("get_component_property");
    assert("get_component_property"@.len() == 22);
    reveal_strlit("set_component_property");
    assert("set_component_property"@.len() == 22);
    reveal_strlit("call_method");
    assert("call_method"@.len() == 11);
    reveal_strlit("set_transform");
    assert("set_transform"@.len() == 13);
}

/// `s1_inspect` `set_active` passes the caller's flag through: the call of the
/// mod's `set_active` sends the object name given and, under `active`, exactly
/// the boolean given (`false` deactivates, `true` activates).
pub proof fn lemma_set_active_sends_the_given_flag(args: InspectArgs, r: ToolPlan)
    requires
        plan_matches(r, inspect_plan(args)),
        args.action@ == "set_active"@,
        args.object_name is Some,
        args.active is Some,
    ensures
        calls_method(r, "set_active"@),
        sent_value(r, "object_name"@) == Some(JsonValue::String(args.object_name->0)),
        sent_value(r, "active"@) == Some(JsonValue::Bool(args.active->0)),
{
    lemma_not_an_earlier_inspect_action(args.action@);
    reveal_strlit("object_name");
    reveal_strlit("active");
    assert("object_name"@.len() == 11 && "active"@.len() == 6);
    let o = args.object_name->0;
    let b = args.active->0;
    let ps = str_param("object_name"@, o) + value_param("active"@, JsonValue::Bool(b));
    assert(inspect_plan(args) == call_with("set_active"@, ps));
    lemma_param_lookup_single("object_name"@, ParamSpec::Is(JsonValue::String(o)), "object_name"@);
    lemma_param_lookup_single("object_name"@, ParamSpec::Is(JsonValue::String(o)), "active"@);
    lemma_param_lookup_concat(str_param("object_name"@, o), value_param("active"@, JsonValue::Bool(b)), "object_name"@);
    lemma_param_lookup_concat(str_param("object_name"@, o), value_param("active"@, JsonValue::Bool(b)), "active"@);
    lemma_param_lookup_single("active"@, ParamSpec::Is(JsonValue::Bool(b)), "active"@);
    lemma_sent_of_call(r, "set_active"@, ps, ReplyStyle::Pretty, "object_name"@);
    lemma_sent_of_call(r, "set_active"@, ps, ReplyStyle::Pretty, "active"@);
}

proof fn lemma_is_add_item(a: Seq<char>)
    requires
        a == "add_item"@,
    ensures
        a != "get"@,
        a != "get_inventory"@,
        a != "teleport"@,
{
    reveal_strlit("add_item");
    assert(a.len() == 8);
    reveal_strlit("get");
    assert("get"@.len() == 3);
    reveal_strlit("get_inventory");
    assert("get_inventory"@.len() == 13);
    reveal_strlit("teleport");
    assert(a[0] == 'a' && "teleport"@[0] == 't');
}

/// `s1_player` `add_item` adds the quantity asked for: with an item id and a
/// quantity of at least 1, the call of the mod's `add_item_to_player` sends that
/// item id and exactly that quantity; with no quantity it sends 1; a quantity of
/// 0 is refused without calling the mod.
pub proof fn lemma_add_item_sends_the_given_quantity(args: PlayerArgs, r: ToolPlan)
    requires
        plan_matches(r, player_plan(args)),
        args.action@ == "add_item"@,
        args.item_id is Some,
    ensures
        args.quantity is None || args.quantity->0 >= 1 ==> {
            &&& calls_method(r, "add_item_to_player"@)
            &&& sent_value(r, "item_id"@) == Some(JsonValue::String(args.item_id->0))
            &&& sent_value(r, "quantity"@) == Some(JsonValue::Number(JsonNumber::PosInt(
                if args.quantity is Some { args.quantity->0 } else { 1u64 })))
        },
        args.quantity == Some(0u64) ==> r is Reply,
{
    lemma_is_add_item(args.action@);
    let id = args.item_id->0;
    let q: u64 = if args.quantity is Some { args.quantity->0 } else { 1u64 };
    reveal_strlit("item_id");
    assert("item_id"@.len() == 7);
    reveal_strlit("quantity");
    assert("quantity"@.len() == 8);
    if q >= 1 {
        let a = str_param("item_id"@, id);
        let b = uint_param("quantity"@, q);
        assert(player_plan(args) == call_with("add_item_to_player"@, a + b));
        lemma_param_lookup_single("item_id"@, ParamSpec::Is(JsonValue::String(id)), "item_id"@);
        lemma_param_lookup_single("item_id"@, ParamSpec::Is(JsonValue::String(id)), "quantity"@);
        lemma_param_lookup_single("quantity"@, ParamSpec::Is(JsonValue::Number(JsonNumber::PosInt(q))), "quantity"@);
        lemma_param_lookup_concat(a, b, "item_id"@);
        lemma_param_lookup_concat(a, b, "quantity"@);
        lemma_sent_of_call(r, "add_item_to_player"@, a + b, ReplyStyle::Pretty, "item_id"@);
        lemma_sent_of_call(r, "add_item_to_player"@, a + b, ReplyStyle::Pretty, "quantity"@);
    }
}

/// `s1_npc` `list` keeps the caller's filter: with a filter the call of the
/// mod's `list_npcs` sends exactly that filter, and it sends no params only when
/// no filter is given.
pub proof fn lemma_list_npcs_keeps_the_filter(args: NpcArgs, r: ToolPlan)
    requires
        plan_matches(r, npc_plan(args)),
        args.action@ == "list"@,
    ensures
        calls_method(r, "list_npcs"@),
        args.filter is Some ==> sent_value(r, "filter"@) == Some(JsonValue::String(args.filter->0)),
        (r matches ToolPlan::Call { params: None, .. }) <==> args.filter is None,
{
    match args.filter {
        Some(f) => {
            lemma_param_lookup_single("filter"@, ParamSpec::Is(JsonValue::String(f)), "filter"@);
            lemma_sent_of_call(r, "list_npcs"@, str_param("filter"@, f), ReplyStyle::Pretty, "filter"@);
        },
        None => {},
    }
}

proof fn lemma_is_capture_logs(a: Seq<char>)
    requires
        a == "capture_logs"@,
    ensures
        a != "get_state"@,
        a != "list_locations"@,
        a != "get_location"@,
        a != "list_vehicles"@,
        a != "get_vehicle"@,
{
    reveal_strlit("capture_logs");
    assert(a.len() == 12);
    reveal_strlit("get_state");
    assert("get_state"@.len() == 9);
    reveal_strlit("list_locations");
    assert("list_locations"@.len() == 14);
    reveal_strlit("get_location");
    assert(a[0] == 'c' && "get_location"@[0] == 'g');
    reveal_strlit("list_vehicles");
    assert("list_vehicles"@.len() == 13);
    reveal_strlit("get_vehicle");
    assert("get_vehicle"@.len() == 11);
}

/// A string, as a JSON value.
pub open spec fn opt_string_value(s: Option<String>) -> Option<JsonValue> {
    match s {
        Some(v) => Some(JsonValue::String(v)),
        None => None,
    }
}

/// A count, as a JSON value.
pub open spec fn opt_count_value(n: Option<u64>) -> Option<JsonValue> {
    match n {
        Some(v) => Some(JsonValue::Number(JsonNumber::PosInt(v))),
        None => None,
    }
}

proof fn lemma_lookup_opt_str(k: Seq<char>, v: Option<String>, key: Seq<char>)
    ensures
        param_lookup(opt_str_param(k, v), key) == (if k == key && v is Some {
            Some(ParamSpec::Is(JsonValue::String(v->0)))
        } else {
            None::<ParamSpec>
        }),
{
    match v {
        Some(s) => lemma_param_lookup_single(k, ParamSpec::Is(JsonValue::String(s)), key),
        None => {},
    }
}

proof fn lemma_lookup_opt_uint(k: Seq<char>, v: Option<u64>, key: Seq<char>)
    ensures
        param_lookup(opt_uint_param(k, v), key) == (if k == key && v is Some {
            Some(ParamSpec::Is(JsonValue::Number(JsonNumber::PosInt(v->0))))
        } else {
            None::<ParamSpec>
        }),
{
    match v {
        Some(n) => lemma_param_lookup_single(k, ParamSpec::Is(JsonValue::Number(JsonNumber::PosInt(n))), key),
        None => {},
    }
}

proof fn lemma_log_filter_lookup(args: WorldArgs, key: Seq<char>)
    requires
        key == "last_n_lines"@ || key == "first_n_lines"@ || key == "keyword"@ || key == "from_timestamp"@
            || key == "to_timestamp"@ || key == "include_pattern"@ || key == "exclude_pattern"@,
    ensures
        key == "last_n_lines"@ ==> param_lookup(log_filter_params(args), key) == opt_is(opt_count_value(args.last_n_lines)),
        key == "first_n_lines"@ ==> param_lookup(log_filter_params(args), key) == opt_is(opt_count_value(args.first_n_lines)),
        key == "keyword"@ ==> param_lookup(log_filter_params(args), key) == opt_is(opt_string_value(args.keyword)),
        key == "from_timestamp"@ ==> param_lookup(log_filter_params(args), key) == opt_is(opt_string_value(args.from_timestamp)),
        key == "to_timestamp"@ ==> param_lookup(log_filter_params(args), key) == opt_is(opt_string_value(args.to_timestamp)),
        key == "include_pattern"@ ==> param_lookup(log_filter_params(args), key) == opt_is(opt_string_value(args.include_pattern)),
        key == "exclude_pattern"@ ==> param_lookup(log_filter_params(args), key) == opt_is(opt_string_value(args.exclude_pattern)),
{
    reveal_strlit("last_n_lines");
    assert("last_n_lines"@.len() == 12);
    reveal_strlit("first_n_lines");
    assert("first_n_lines"@.len() == 13);
    reveal_strlit("keyword");
    assert("keyword"@.len() == 7);
    reveal_strlit("from_timestamp");
    assert("from_timestamp"@.len() == 14);
    reveal_strlit("to_timestamp");
    assert("to_timestamp"@.len() == 12);
    reveal_strlit("include_pattern");
    assert("include_pattern"@.len() == 15);
    reveal_strlit("exclude_pattern");
    assert("exclude_pattern"@.len() == 15);
    assert("last_n_lines"@[0] == 'l' && "to_timestamp"@[0] == 't');
    assert("include_pattern"@[0] == 'i' && "exclude_pattern"@[0] == 'e');
    let p1 = opt_uint_param("last_n_lines"@, args.last_n_lines);
    let p2 = opt_uint_param("first_n_lines"@, args.first_n_lines);
    let p3 = opt_str_param("keyword"@, args.keyword);
    let p4 = opt_str_param("from_timestamp"@, args.from_timestamp);
    let p5 = opt_str_param("to_timestamp"@, args.to_timestamp);
    let p6 = opt_str_param("include_pattern"@, args.include_pattern);
    let p7 = opt_str_param("exclude_pattern"@, args.exclude_pattern);
    lemma_lookup_opt_uint("last_n_lines"@, args.last_n_lines, key);
    lemma_lookup_opt_uint("first_n_lines"@, args.first_n_lines, key);
    lemma_lookup_opt_str("keyword"@, args.keyword, key);
    lemma_lookup_opt_str("from_timestamp"@, args.from_timestamp, key);
    lemma_lookup_opt_str("to_timestamp"@, args.to_timestamp, key);
    lemma_lookup_opt_str("include_pattern"@, args.include_pattern, key);
    lemma_lookup_opt_str("exclude_pattern"@, args.exclude_pattern, key);
    lemma_param_lookup_concat(p1, p2, key);
    lemma_param_lookup_concat(p1 + p2, p3, key);
    lemma_param_lookup_concat(p1 + p2 + p3, p4, key);
    lemma_param_lookup_concat(p1 + p2 + p3 + p4, p5, key);
    lemma_param_lookup_concat(p1 + p2 + p3 + p4 + p5, p6, key);
    lemma_param_lookup_concat(p1 + p2 + p3 + p4 + p5 + p6, p7, key);
}

/// A value stated as exactly that value.
pub open spec fn opt_is(v: Option<JsonValue>) -> Option<ParamSpec> {
    match v {
        Some(w) => Some(ParamSpec::Is(w)),
        None => None,
    }
}

/// `s1_world` `capture_logs` sends each log filter the caller gave under its own
/// key with its own value, and none it did not give: the time window goes out
/// as given (`from_timestamp` and `to_timestamp` are never swapped), and so do
/// the line counts, the keyword and the patterns.
pub proof fn lemma_capture_logs_sends_each_filter_as_given(args: WorldArgs, r: ToolPlan)
    requires
        plan_matches(r, world_plan(args)),
        args.action@ == "capture_logs"@,
    ensures
        calls_method(r, "capture_logs"@),
        sent_value(r, "from_timestamp"@) == opt_string_value(args.from_timestamp),
        sent_value(r, "to_timestamp"@) == opt_string_value(args.to_timestamp),
        sent_value(r, "keyword"@) == opt_string_value(args.keyword),
        sent_value(r, "include_pattern"@) == opt_string_value(args.include_pattern),
        sent_value(r, "exclude_pattern"@) == opt_string_value(args.exclude_pattern),
        sent_value(r, "last_n_lines"@) == opt_count_value(args.last_n_lines),
        sent_value(r, "first_n_lines"@) == opt_count_value(args.first_n_lines),
{
    lemma_is_capture_logs(args.action@);
    let ps = log_filter_params(args);
    lemma_log_filter_lookup(args, "last_n_lines"@);
    lemma_sent_of_call(r, "capture_logs"@, ps, ReplyStyle::Logs, "last_n_lines"@);
    lemma_log_filter_lookup(args, "first_n_lines"@);
    lemma_sent_of_call(r, "capture_logs"@, ps, ReplyStyle::Logs, "first_n_lines"@);
    lemma_log_filter_lookup(args, "keyword"@);
    lemma_sent_of_call(r, "capture_logs"@, ps, ReplyStyle::Logs, "keyword"@);
    lemma_log_filter_lookup(args, "from_timestamp"@);
    lemma_sent_of_call(r, "capture_logs"@, ps, ReplyStyle::Logs, "from_timestamp"@);
    lemma_log_filter_lookup(args, "to_timestamp"@);
    lemma_sent_of_call(r, "capture_logs"@, ps, ReplyStyle::Logs, "to_timestamp"@);
    lemma_log_filter_lookup(args, "include_pattern"@);
    lemma_sent_of_call(r, "capture_logs"@, ps, ReplyStyle::Logs, "include_pattern"@);
    lemma_log_filter_lookup(args, "exclude_pattern"@);
    lemma_sent_of_call(r, "capture_logs"@, ps, ReplyStyle::Logs, "exclude_pattern"@);
}

/// `s1_game` `launch` honours the caller's switches: once the version is
/// valid, the launch runs the debugger exactly when `enable_debugger` is given
/// as true, and waits for the mod unless `wait_for_connection` is given as
/// false.
pub proof fn lemma_launch_keeps_the_switches(args: GameArgs, r: GamePlan)
    requires
        game_plan_is(args, r),
        args.action@ == "launch"@,
        version_from_lowered(version_arg(args.version), lowercase(version_arg(args.version))) is Ok,
    ensures
        r matches GamePlan::Launch(o) && o.enable_debugger == (args.enable_debugger == Some(true))
            && o.wait_for_connection == (args.wait_for_connection != Some(false)),
{
}

proof fn lemma_is_set_field(a: Seq<char>)
    requires
        a == "set_field"@,
    ensures
        a != "find_objects"@,
        a != "find_by_type"@,
        a != "search_types"@,
        a != "list_scenes"@,
        a != "get_hierarchy"@,
        a != "get_scene_objects"@,
        a != "inspect_object"@,
        a != "list_components"@,
        a != "get_component"@,
        a != "inspect_component"@,
        a != "get_member"@,
        a != "inspect_type"@,
        a != "list_members"@,
        a != "get_transform"@,
        a != "is_active"@,
        a != "get_field"@,
{
    reveal_strlit("set_field");
    assert(a.len() == 9);
    reveal_strlit("find_objects");
    assert("find_objects"@.len() == 12);
    reveal_strlit("find_by_type");
    assert("find_by_type"@.len() == 12);
    reveal_strlit("search_types");
    assert("search_types"@.len() == 12);
    reveal_strlit("list_scenes");
    assert("list_scenes"@.len() == 11);
    reveal_strlit("get_hierarchy");
    assert("get_hierarchy"@.len() == 13);
    reveal_strlit("get_scene_objects");
    assert("get_scene_objects"@.len() == 17);
    reveal_strlit("inspect_object");
    assert("inspect_object"@.len() == 14);
    reveal_strlit("list_components");
    assert("list_components"@.len() == 15);
    reveal_strlit("get_component");
    assert("get_component"@.len() == 13);
    reveal_strlit("inspect_component");
    assert("inspect_component"@.len() == 17);
    reveal_strlit("get_member");
    assert("get_member"@.len() == 10);
    reveal_strlit("inspect_type");
    assert("inspect_type"@.len() == 12);
    reveal_strlit("list_members");
    assert("list_members"@.len() == 12);
    reveal_strlit("get_transform");
    assert("get_transform"@.len() == 13);
    reveal_strlit("is_active");
    assert(a[0] == 's' && "is_active"@[0] == 'i');
    reveal_strlit("get_field");
    assert(a[0] == 's' && "get_field"@[0] == 'g');
}

/// `s1_inspect` `set_field` writes what the caller asked: the call of the mod's
/// `set_field` sends the object, the field and exactly the value given.
pub proof fn lemma_set_field_sends_the_given_value(args: InspectArgs, r: ToolPlan)
    requires
        plan_matches(r, inspect_plan(args)),
        args.action@ == "set_field"@,
        args.object_name is Some,
        args.field_name is Some,
        args.value is Some,
    ensures
        calls_method(r, "set_field"@),
        sent_value(r, "object_name"@) == Some(JsonValue::String(args.object_name->0)),
        sent_value(r, "field_name"@) == Some(JsonValue::String(args.field_name->0)),
        sent_value(r, "value"@) == Some(args.value->0),
{
    lemma_is_set_field(args.action@);
    reveal_strlit("object_name");
    assert("object_name"@.len() == 11);
    reveal_strlit("field_name");
    assert("field_name"@.len() == 10);
    reveal_strlit("value");
    assert("value"@.len() == 5);
    let o = args.object_name->0;
    let f = args.field_name->0;
    let v = args.value->0;
    let pa = str_param("object_name"@, o);
    let pb = str_param("field_name"@, f);
    let pc = value_param("value"@, v);
    let pd = opt_str_param("component_type"@, args.component_type);
    let ps = pa + pb + pc + pd;
    assert(inspect_plan(args) == call_with("set_field"@, ps));
    assert forall|k: Seq<char>| k == "object_name"@ || k == "field_name"@ || k == "value"@ implies
        param_lookup(ps, k) == (if k == "object_name"@ { Some(ParamSpec::Is(JsonValue::String(o))) }
            else if k == "field_name"@ { Some(ParamSpec::Is(JsonValue::String(f))) } else { Some(ParamSpec::Is(v)) }) by {
        lemma_param_lookup_single("object_name"@, ParamSpec::Is(JsonValue::String(o)), k);
        lemma_param_lookup_single("field_name"@, ParamSpec::Is(JsonValue::String(f)), k);
        lemma_param_lookup_single("value"@, ParamSpec::Is(v), k);
        lemma_param_lookup_concat(pa, pb, k);
        lemma_param_lookup_concat(pa + pb, pc, k);
        lemma_param_lookup_concat(pa + pb + pc, pd, k);
    }
    lemma_sent_of_call(r, "set_field"@, ps, ReplyStyle::Pretty, "object_name"@);
    lemma_sent_of_call(r, "set_field"@, ps, ReplyStyle::Pretty, "field_name"@);
    lemma_sent_of_call(r, "set_field"@, ps, ReplyStyle::Pretty, "value"@);
}

proof fn lemma_is_spawn(a: Seq<char>)
    requires
        a == "spawn"@,
    ensures
        a != "list"@,
        a != "get"@,
{
    reveal_strlit("spawn");
    assert(a.len() == 5);
    reveal_strlit("list");
    assert("list"@.len() == 4);
    reveal_strlit("get");
    assert("get"@.len() == 3);
}

/// `s1_item` `spawn` spawns the quantity asked for: a quantity above 1 is sent
/// as given; with no quantity or a quantity of 1 none is sent (the mod spawns
/// one); a quantity of 0 is refused without calling the mod.
pub proof fn lemma_spawn_sends_the_given_quantity(args: ItemArgs, r: ToolPlan)
    requires
        plan_matches(r, item_plan(args)),
        args.action@ == "spawn"@,
        args.item_id is Some,
        args.position is Some,
    ensures
        args.quantity is Some && args.quantity->0 > 1 ==> calls_method(r, "spawn_item"@)
            && sent_value(r, "quantity"@) == Some(JsonValue::Number(JsonNumber::PosInt(args.quantity->0))),
        args.quantity is None || args.quantity == Some(1u64) ==> calls_method(r, "spawn_item"@)
            && sent_value(r, "quantity"@) is None,
        args.quantity is None || args.quantity->0 >= 1 ==> sent_value(r, "item_id"@) == Some(JsonValue::String(args.item_id->0)),
        args.quantity == Some(0u64) ==> r is Reply,
{
    lemma_is_spawn(args.action@);
    reveal_strlit("item_id");
    assert("item_id"@.len() == 7);
    reveal_strlit("position");
    assert("position"@.len() == 8);
    reveal_strlit("quantity");
    assert("quantity"@.len() == 8);
    assert("position"@[0] == 'p' && "quantity"@[0] == 'q');
    let id = args.item_id->0;
    let p = args.position->0;
    let q: u64 = if args.quantity is Some { args.quantity->0 } else { 1u64 };
    if q >= 1 {
        let pa = str_param("item_id"@, id);
        let pb = pos_param("position"@, p);
        let pc = if q != 1 { uint_param("quantity"@, q) } else { Seq::<(Seq<char>, ParamSpec)>::empty() };
        let ps = pa + pb + pc;
        assert(item_plan(args) == call_with("spawn_item"@, ps));
        assert forall|k: Seq<char>| k == "item_id"@ || k == "quantity"@ implies
            param_lookup(ps, k) == (if k == "item_id"@ { Some(ParamSpec::Is(JsonValue::String(id))) }
                else if q != 1 { Some(ParamSpec::Is(JsonValue::Number(JsonNumber::PosInt(q)))) } else { None::<ParamSpec> }) by {
            lemma_param_lookup_single("item_id"@, ParamSpec::Is(JsonValue::String(id)), k);
            lemma_param_lookup_single("position"@, ParamSpec::At(p), k);
            lemma_param_lookup_single("quantity"@, ParamSpec::Is(JsonValue::Number(JsonNumber::PosInt(q))), k);
            lemma_param_lookup_concat(pa, pb, k);
            lemma_param_lookup_concat(pa + pb, pc, k);
        }
        lemma_sent_of_call(r, "spawn_item"@, ps, ReplyStyle::Pretty, "item_id"@);
        lemma_sent_of_call(r, "spawn_item"@, ps, ReplyStyle::Pretty, "quantity"@);
    }
}

proof fn lemma_is_set_health(a: Seq<char>)
    requires
        a == "set_health"@,
    ensures
        a != "list"@,
        a != "get"@,
        a != "teleport"@,
{
    reveal_strlit("set_health");
    assert(a.len() == 10);
    reveal_strlit("list");
    assert("list"@.len() == 4);
    reveal_strlit("get");
    assert("get"@.len() == 3);
    reveal_strlit("teleport");
    assert("teleport"@.len() == 8);
}

/// `s1_npc` `set_health` sets the health asked for: the call of the mod's
/// `set_npc_health` sends the NPC id and exactly the health value given.
pub proof fn lemma_set_health_sends_the_given_health(args: NpcArgs, r: ToolPlan)
    requires
        plan_matches(r, npc_plan(args)),
        args.action@ == "set_health"@,
        args.npc_id is Some,
        args.health is Some,
    ensures
        calls_method(r, "set_npc_health"@),
        sent_value(r, "npc_id"@) == Some(JsonValue::String(args.npc_id->0)),
        sent_value(r, "health"@) == Some(JsonValue::Number(args.health->0)),
{
    lemma_is_set_health(args.action@);
    reveal_strlit("npc_id");
    assert("npc_id"@.len() == 6);
    reveal_strlit("health");
    assert("health"@.len() == 6);
    assert("npc_id"@[0] == 'n' && "health"@[0] == 'h');
    let id = args.npc_id->0;
    let h = args.health->0;
    let pa = str_param("npc_id"@, id);
    let pb = value_param("health"@, JsonValue::Number(h));
    assert(npc_plan(args) == call_with("set_npc_health"@, pa + pb));
    lemma_param_lookup_single("npc_id"@, ParamSpec::Is(JsonValue::String(id)), "npc_id"@);
    lemma_param_lookup_single("npc_id"@, ParamSpec::Is(JsonValue::String(id)), "health"@);
    lemma_param_lookup_single("health"@, ParamSpec::Is(JsonValue::Number(h)), "health"@);
    lemma_param_lookup_concat(pa, pb, "npc_id"@);
    lemma_param_lookup_concat(pa, pb, "health"@);
    lemma_sent_of_call(r, "set_npc_health"@, pa + pb, ReplyStyle::Pretty, "npc_id"@);
    lemma_sent_of_call(r, "set_npc_health"@, pa + pb, ReplyStyle::Pretty, "health"@);
}

proof fn lemma_is_load_save(a: Seq<char>)
    requires
        a == "load_save"@,
    ensures
        a != "get_state"@,
        a != "list_locations"@,
        a != "get_location"@,
        a != "list_vehicles"@,
        a != "get_vehicle"@,
        a != "capture_logs"@,
        a != "list_saves"@,
{
    reveal_strlit("load_save");
    assert(a.len() == 9);
    reveal_strlit("get_state");
    assert(a[0] == 'l' && "get_state"@[0] == 'g');
    reveal_strlit("list_locations");
    assert("list_locations"@.len() == 14);
    reveal_strlit("get_location");
    assert("get_location"@.len() == 12);
    reveal_strlit("list_vehicles");
    assert("list_vehicles"@.len() == 13);
    reveal_strlit("get_vehicle");
    assert("get_vehicle"@.len() == 11);
    reveal_strlit("capture_logs");
    assert("capture_logs"@.len() == 12);
    reveal_strlit("list_saves");
    assert("list_saves"@.len() == 10);
}

/// `s1_world` `load_save` loads the slot asked for: the call of the mod's
/// `load_save` sends exactly the slot index given.
pub proof fn lemma_load_save_sends_the_given_slot(args: WorldArgs, r: ToolPlan)
    requires
        plan_matches(r, world_plan(args)),
        args.action@ == "load_save"@,
        args.slot_index is Some,
    ensures
        calls_method(r, "load_save"@),
        sent_value(r, "slot_index"@) == Some(JsonValue::Number(JsonNumber::PosInt(args.slot_index->0))),
{
    lemma_is_load_save(args.action@);
    let i = args.slot_index->0;
    lemma_param_lookup_single("slot_index"@, ParamSpec::Is(JsonValue::Number(JsonNumber::PosInt(i))), "slot_index"@);
    lemma_sent_of_call(r, "load_save"@, uint_param("slot_index"@, i), ReplyStyle::LoadSave, "slot_index"@);
}

proof fn lemma_is_search_docs(a: Seq<char>)
    requires
        a == "search_docs"@,
    ensures
        a != "launch"@,
        a != "close"@,
        a != "process_info"@,
{
    reveal_strlit("search_docs");
    assert(a.len() == 11);
    reveal_strlit("launch");
    assert("launch"@.len() == 6);
    reveal_strlit("close");
    assert("close"@.len() == 5);
    reveal_strlit("process_info");
    assert("process_info"@.len() == 12);
}

/// `s1_game` `search_docs` searches what the caller asked: the topic as given,
/// and the token budget given (5000 when absent); a budget of 0 is refused.
pub proof fn lemma_search_docs_keeps_topic_and_tokens(args: GameArgs, r: GamePlan)
    requires
        game_plan_is(args, r),
        args.action@ == "search_docs"@,
        args.topic is Some,
    ensures
        args.tokens != Some(0u32) ==> (r matches GamePlan::SearchDocs { topic, tokens } && topic == args.topic->0
            && tokens == (if args.tokens is Some { args.tokens->0 } else { 5000u32 })),
        args.tokens == Some(0u32) ==> r is Reply,
{
    lemma_is_search_docs(args.action@);
}

} // verus!
