use s1_mcp_client_rust::json::{JsonNumber, JsonValue};
use s1_mcp_client_rust::lifecycle::GameVersion;
use s1_mcp_client_rust::tools::{
    all_tool_names_csv, find_tool, plan_game, plan_inspect, plan_item, plan_npc, plan_player, plan_world, route_tool,
    tool_descriptors, GameArgs, GamePlan, InspectArgs, ItemArgs, NpcArgs, PlayerArgs, Position, ReplyStyle, ToolKind,
    ToolPlan, WorldArgs,
};

fn float(t: &str) -> JsonNumber {
    JsonNumber::Float(t.to_string())
}

fn pos() -> Position {
    Position { x: float("1.0"), y: float("2.5"), z: float("-3.0") }
}

fn reply_text(plan: ToolPlan) -> String {
    match plan {
        ToolPlan::Reply(t) => t,
        other => panic!("expected a reply, got {other:?}"),
    }
}

fn call_parts(plan: ToolPlan) -> (String, Option<Vec<(String, JsonValue)>>, ReplyStyle) {
    match plan {
        ToolPlan::Call { method, params, style } => {
            let entries = params.map(|p| match p {
                JsonValue::Object(es) => es,
                other => panic!("params must be an object, got {other:?}"),
            });
            (method, entries, style)
        }
        other => panic!("expected a call, got {other:?}"),
    }
}

fn keys(entries: &[(String, JsonValue)]) -> Vec<&str> {
    entries.iter().map(|(k, _)| k.as_str()).collect()
}

fn player(action: &str) -> PlayerArgs {
    PlayerArgs { action: action.to_string(), position: None, item_id: None, quantity: None }
}

fn world(action: &str) -> WorldArgs {
    WorldArgs {
        action: action.to_string(),
        property_id: None,
        property_name: None,
        vehicle_id: None,
        slot_index: None,
        last_n_lines: None,
        first_n_lines: None,
        keyword: None,
        from_timestamp: None,
        to_timestamp: None,
        include_pattern: None,
        exclude_pattern: None,
    }
}

fn inspect(action: &str) -> InspectArgs {
    InspectArgs {
        action: action.to_string(),
        object_name: None,
        object_type: None,
        component_type: None,
        inspected_type: None,
        member_path: None,
        field_name: None,
        property_name: None,
        method_name: None,
        value: None,
        args: None,
        name_pattern: None,
        tag: None,
        layer: None,
        pattern: None,
        component_types_only: None,
        include_inactive: None,
        scene_name: None,
        max_depth: None,
        member_type: None,
        active: None,
        position: None,
        rotation: None,
        scale: None,
    }
}

fn game(action: &str) -> GameArgs {
    GameArgs { action: action.to_string(), version: None, enable_debugger: None, wait_for_connection: None, topic: None, tokens: None }
}

#[test]
fn six_tools_in_order() {
    let names: Vec<&str> = tool_descriptors().iter().map(|d| d.name).collect();
    assert_eq!(names, vec!["s1_player", "s1_npc", "s1_item", "s1_world", "s1_inspect", "s1_game"]);
    assert_eq!(all_tool_names_csv(), "s1_player, s1_npc, s1_item, s1_world, s1_inspect, s1_game");
    assert_eq!(find_tool("s1_item").unwrap().description, "Interact with game items (list/get/spawn).");
    assert!(find_tool("s1_items").is_none());
}

#[test]
fn routing_and_unknown_tool() {
    assert_eq!(route_tool("s1_world").unwrap(), ToolKind::World);
    assert_eq!(route_tool("s1_game").unwrap(), ToolKind::Game);
    assert_eq!(
        route_tool("nope").unwrap_err(),
        "Error: Unknown tool 'nope'. Available tools: s1_player, s1_npc, s1_item, s1_world, s1_inspect, s1_game"
    );
}

#[test]
fn player_args_rejects_invalid_action() {
    assert_eq!(reply_text(plan_player(player("fly"))), "Error: Unknown action 'fly'");
}

#[test]
fn player_plans() {
    let (method, params, _) = call_parts(plan_player(player("get")));
    assert_eq!(method, "get_player");
    assert!(params.unwrap().is_empty());

    assert_eq!(reply_text(plan_player(player("teleport"))), "Error: position is required for teleport");
    let mut args = player("teleport");
    args.position = Some(pos());
    let (method, params, _) = call_parts(plan_player(args));
    assert_eq!(method, "teleport_player");
    let params = params.unwrap();
    assert_eq!(keys(&params), vec!["position"]);
    match &params[0].1 {
        JsonValue::Object(xyz) => assert_eq!(keys(xyz), vec!["x", "y", "z"]),
        other => panic!("position must be an object: {other:?}"),
    }

    let mut args = player("add_item");
    args.item_id = Some("weed_brick".to_string());
    let (method, params, _) = call_parts(plan_player(args));
    assert_eq!(method, "add_item_to_player");
    let params = params.unwrap();
    assert_eq!(keys(&params), vec!["item_id", "quantity"]);
    assert!(matches!(params[1].1, JsonValue::Number(JsonNumber::PosInt(1))));

    let mut args = player("add_item");
    args.item_id = Some("weed_brick".to_string());
    args.quantity = Some(0);
    assert_eq!(reply_text(plan_player(args)), "Error: quantity must be a positive integer");
}

#[test]
fn npc_and_item_plans() {
    let args = NpcArgs { action: "list".to_string(), npc_id: None, filter: None, position: None, health: None };
    let (method, params, _) = call_parts(plan_npc(args));
    assert_eq!(method, "list_npcs");
    assert!(params.is_none());

    let args = NpcArgs { action: "set_health".to_string(), npc_id: Some("dealer_01".to_string()), filter: None, position: None, health: None };
    assert_eq!(reply_text(plan_npc(args)), "Error: health is required");
    let args = NpcArgs { action: "set_health".to_string(), npc_id: Some("dealer_01".to_string()), filter: None, position: None, health: Some(float("75.0")) };
    let (method, params, _) = call_parts(plan_npc(args));
    assert_eq!(method, "set_npc_health");
    assert_eq!(keys(&params.unwrap()), vec!["npc_id", "health"]);

    let args = ItemArgs { action: "spawn".to_string(), item_id: Some("weed_brick".to_string()), category: None, position: Some(pos()), quantity: None };
    let (method, params, _) = call_parts(plan_item(args));
    assert_eq!(method, "spawn_item");
    assert_eq!(keys(&params.unwrap()), vec!["item_id", "position"]);
    let args = ItemArgs { action: "spawn".to_string(), item_id: Some("weed_brick".to_string()), category: None, position: Some(pos()), quantity: Some(3) };
    let (_, params, _) = call_parts(plan_item(args));
    assert_eq!(keys(&params.unwrap()), vec!["item_id", "position", "quantity"]);
    let args = ItemArgs { action: "spawn".to_string(), item_id: Some("weed_brick".to_string()), category: None, position: None, quantity: None };
    assert_eq!(reply_text(plan_item(args)), "Error: position is required");
}

#[test]
fn world_plans() {
    assert_eq!(reply_text(plan_world(world("get_location"))), "Error: property_id or property_name is required");
    let mut args = world("capture_logs");
    args.last_n_lines = Some(100);
    args.keyword = Some("error".to_string());
    args.include_pattern = Some("^\\[ERR".to_string());
    let (method, params, style) = call_parts(plan_world(args));
    assert_eq!(method, "capture_logs");
    assert_eq!(style, ReplyStyle::Logs);
    assert_eq!(keys(&params.unwrap()), vec!["last_n_lines", "keyword", "include_pattern"]);

    assert_eq!(reply_text(plan_world(world("load_save"))), "Error: slot_index is required");
    let mut args = world("load_save");
    args.slot_index = Some(2);
    let (method, _, style) = call_parts(plan_world(args));
    assert_eq!(method, "load_save");
    assert_eq!(style, ReplyStyle::LoadSave);
    let (_, _, style) = call_parts(plan_world(world("list_saves")));
    assert_eq!(style, ReplyStyle::Saves);
}

#[test]
fn inspect_plans() {
    assert_eq!(reply_text(plan_inspect(inspect("set_field"))), "Error: object_name required for this action");
    let mut args = inspect("set_field");
    args.object_name = Some("Player".to_string());
    args.field_name = Some("health".to_string());
    assert_eq!(reply_text(plan_inspect(args)), "Error: value is required for set_field");

    let mut args = inspect("set_field");
    args.object_name = Some("Player".to_string());
    args.field_name = Some("health".to_string());
    args.value = Some(JsonValue::Number(JsonNumber::PosInt(100)));
    let (method, params, _) = call_parts(plan_inspect(args));
    assert_eq!(method, "set_field");
    assert_eq!(keys(&params.unwrap()), vec!["object_name", "field_name", "value"]);

    let mut args = inspect("get_component");
    args.object_name = Some("Player".to_string());
    assert_eq!(reply_text(plan_inspect(args)), "Error: object_name, component_type required for this action");

    let mut args = inspect("list_members");
    args.inspected_type = Some("Player".to_string());
    args.member_type = Some("fields".to_string());
    let (method, params, _) = call_parts(plan_inspect(args));
    assert_eq!(method, "list_members");
    assert_eq!(keys(&params.unwrap()), vec!["type_name", "member_type"]);

    let mut args = inspect("call_method");
    args.object_name = Some("Enemy".to_string());
    args.method_name = Some("TakeDamage".to_string());
    args.args = Some(vec![JsonValue::Number(JsonNumber::PosInt(50))]);
    let (method, params, _) = call_parts(plan_inspect(args));
    assert_eq!(method, "call_method");
    assert_eq!(keys(&params.unwrap()), vec!["object_name", "method_name", "args"]);

    let (method, params, _) = call_parts(plan_inspect(inspect("find_objects")));
    assert_eq!(method, "find_gameobjects");
    assert!(params.unwrap().is_empty());

    assert_eq!(reply_text(plan_inspect(inspect("teleport"))), "Error: Unknown action 'teleport'");
}

#[test]
fn game_plans() {
    match plan_game(game("launch")) {
        GamePlan::Reply(t) => assert_eq!(t, "Error: Invalid version ''. Must be 'il2cpp' or 'mono'."),
        other => panic!("unexpected {other:?}"),
    }
    let mut args = game("launch");
    args.version = Some("IL2CPP".to_string());
    match plan_game(args) {
        GamePlan::Launch(o) => {
            assert_eq!(o.version, GameVersion::Il2cpp);
            assert!(!o.enable_debugger);
            assert!(o.wait_for_connection);
        }
        other => panic!("unexpected {other:?}"),
    }
    match plan_game(game("search_docs")) {
        GamePlan::Reply(t) => assert_eq!(t, "Error: topic is required for search_docs"),
        other => panic!("unexpected {other:?}"),
    }
    let mut args = game("search_docs");
    args.topic = Some("NPC".to_string());
    match plan_game(args) {
        GamePlan::SearchDocs { topic, tokens } => {
            assert_eq!(topic, "NPC");
            assert_eq!(tokens, 5000);
        }
        other => panic!("unexpected {other:?}"),
    }
    let mut args = game("search_docs");
    args.topic = Some("NPC".to_string());
    args.tokens = Some(0);
    assert!(matches!(plan_game(args), GamePlan::Reply(_)));
    assert!(matches!(plan_game(game("close")), GamePlan::Close));
    assert!(matches!(plan_game(game("process_info")), GamePlan::ProcessInfo));
}
