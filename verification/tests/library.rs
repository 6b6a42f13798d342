use vpaw::attributes::mapping::{
    avatar_citizen_number, name_marks_bot, read_attribute, read_source, write_attribute,
    write_target, ReadSource, WriteOutcome, WriteTarget, WORLD_BUILD_NUMBER,
};
use vpaw::attributes::{into_req, AttribBuffer, AttribValue, Attrib, FloatBits, Text};
use vpaw::globals::Globals;
use vpaw::hooks::{callback_hook, event_hook, event_records_citizen, HookChange, HookRegistry};
use vpaw::instance::Instance;
use vpaw::keyed::{bytes_equal, KeyedTable};
use vpaw::login::{citizen_name_from_lines, decimal, second_field, starts_with};
use vpaw::query::{
    cell_coords_from_sector_coords, cells_from_sector, sector_from_cell, ActiveQuery, LiveUpdates,
    Query, SequenceNums,
};
use vpaw::rc::{aw, rc, vp};
use vpaw::sdk::{
    AwAttribute, AwCallback, AwEvent, VpCallback, VpEvent, VpFloatAttribute, VpHook,
    VpIntAttribute, VpStringAttribute,
};
use vpaw::session::{
    bot_display_name, universe_port, wait_continues, wait_outcome, DEFAULT_UNIVERSE_HOST,
    DEFAULT_UNIVERSE_PORT,
};

#[test]
fn it_works() {}

#[test]
fn rc_success_stays_success() {
    assert_eq!(rc(vp::RC_SUCCESS), aw::RC_SUCCESS);
}

#[test]
fn rc_translates_each_known_code() {
    assert_eq!(rc(vp::RC_VERSION_MISMATCH), aw::RC_VERSION_MISMATCH);
    assert_eq!(rc(vp::RC_NOT_INITIALIZED), aw::RC_NOT_INITIALIZED);
    assert_eq!(rc(vp::RC_ALREADY_INITIALIZED), aw::RC_NOT_INITIALIZED);
    assert_eq!(rc(vp::RC_STRING_TOO_LONG), aw::RC_STRING_TOO_LONG);
    assert_eq!(rc(vp::RC_INVALID_LOGIN), aw::RC_INVALID_PASSWORD);
    assert_eq!(rc(vp::RC_WORLD_NOT_FOUND), aw::RC_NO_SUCH_WORLD);
    assert_eq!(rc(vp::RC_WORLD_LOGIN_ERROR), aw::RC_UNABLE_TO_CONTACT_WORLD);
    assert_eq!(rc(vp::RC_NOT_IN_WORLD), aw::RC_NOT_AVAILABLE);
    assert_eq!(rc(vp::RC_CONNECTION_ERROR), aw::RC_NO_CONNECTION);
    assert_eq!(rc(vp::RC_NO_INSTANCE), aw::RC_NO_INSTANCE);
    assert_eq!(rc(vp::RC_NOT_IMPLEMENTED), aw::RC_NOT_AVAILABLE);
    assert_eq!(rc(vp::RC_NO_SUCH_ATTRIBUTE), aw::RC_INVALID_ATTRIBUTE);
    assert_eq!(rc(vp::RC_NOT_ALLOWED), aw::RC_UNAUTHORIZED);
    assert_eq!(rc(vp::RC_DATABASE_ERROR), aw::RC_DATABASE_ERROR);
    assert_eq!(rc(vp::RC_NO_SUCH_USER), aw::RC_NO_SUCH_CITIZEN);
    assert_eq!(rc(vp::RC_TIMEOUT), aw::RC_TIMEOUT);
    assert_eq!(rc(vp::RC_NOT_IN_UNIVERSE), aw::RC_NO_CONNECTION);
    assert_eq!(rc(vp::RC_INVALID_ARGUMENTS), aw::RC_INVALID_ARGUMENT);
    assert_eq!(rc(vp::RC_OBJECT_NOT_FOUND), aw::RC_NO_SUCH_OBJECT);
    assert_eq!(rc(vp::RC_UNKNOWN_ERROR), aw::RC_NOT_AVAILABLE);
    assert_eq!(rc(vp::RC_RECURSIVE_WAIT), aw::RC_NOT_AVAILABLE);
    assert_eq!(rc(vp::RC_JOIN_DECLINED), aw::RC_NOT_AVAILABLE);
    assert_eq!(rc(vp::RC_SECURE_CONNECTION_REQUIRED), aw::RC_NO_CONNECTION);
    assert_eq!(rc(vp::RC_HANDSHAKE_FAILED), aw::RC_NO_CONNECTION);
    assert_eq!(rc(vp::RC_VERIFICATION_FAILED), aw::RC_NO_CONNECTION);
    assert_eq!(rc(vp::RC_NO_SUCH_SESSION), aw::RC_NO_SUCH_SESSION);
}

#[test]
fn rc_unknown_codes_are_not_available() {
    assert_eq!(rc(-1), aw::RC_NOT_AVAILABLE);
    assert_eq!(rc(27), aw::RC_NOT_AVAILABLE);
    assert_eq!(rc(i32::MAX), aw::RC_NOT_AVAILABLE);
    assert_eq!(rc(i32::MIN), aw::RC_NOT_AVAILABLE);
}

#[test]
fn rc_only_success_is_zero() {
    for code in -5..40 {
        assert_eq!(rc(code) == aw::RC_SUCCESS, code == vp::RC_SUCCESS);
    }
}

#[test]
fn sector_of_cells_near_origin() {
    assert_eq!(sector_from_cell(0), 0);
    assert_eq!(sector_from_cell(3), 0);
    assert_eq!(sector_from_cell(4), 1);
    assert_eq!(sector_from_cell(11), 1);
    assert_eq!(sector_from_cell(12), 2);
    assert_eq!(sector_from_cell(-4), 0);
    assert_eq!(sector_from_cell(-5), -1);
    assert_eq!(sector_from_cell(-11), -1);
    assert_eq!(sector_from_cell(-13), -2);
}

#[test]
fn sector_of_shifted_cells() {
    assert_eq!(sector_from_cell(-12), -2);
    assert_eq!(sector_from_cell(-20), -3);
    assert_eq!(sector_from_cell(-28), -4);
}

#[test]
fn sector_of_extreme_cells() {
    assert_eq!(sector_from_cell(i32::MAX - 4), (i32::MAX - 4 + 4) / 8);
    assert_eq!(sector_from_cell(i32::MIN), (i32::MIN + 4) / 8 - 1);
}

#[test]
fn cells_of_sectors() {
    assert_eq!(cells_from_sector(0), -4..5);
    assert_eq!(cells_from_sector(1), 4..13);
    assert_eq!(cells_from_sector(-1), -12..-3);
}

#[test]
fn sector_rounds_down_but_for_shifted_cells() {
    for cell in -200i32..200 {
        let shifted = cell < -4 && (cell + 4) % 8 == 0;
        let floor = (cell + 4).div_euclid(8);
        assert_eq!(sector_from_cell(cell), if shifted { floor - 1 } else { floor }, "cell {}", cell);
    }
}

#[test]
fn every_cell_lies_in_the_cells_of_its_sector() {
    for cell in -100..100 {
        let cells = cells_from_sector(sector_from_cell(cell));
        assert!(cells.contains(&cell), "cell {}", cell);
    }
}

#[test]
fn cells_of_a_sector_map_back_to_it() {
    for sector in -5..5 {
        for cell in sector * 8 - 4..=sector * 8 + 3 {
            let shifted = cell < -4 && (cell + 4) % 8 == 0;
            if !shifted {
                assert_eq!(sector_from_cell(cell), sector);
            }
        }
    }
}

#[test]
fn cell_coords_of_a_sector() {
    let cells = cell_coords_from_sector_coords(0, 1);
    assert_eq!(cells.len(), 81);
    assert_eq!(cells[0], (-4, 4));
    assert_eq!(cells[1], (-4, 5));
    assert_eq!(cells[8], (-4, 12));
    assert_eq!(cells[9], (-3, 4));
    assert_eq!(cells[80], (4, 12));
}

#[test]
fn active_query_starts_outside_a_cell() {
    assert!(!ActiveQuery::new().in_cell);
    let query = Query::Active(ActiveQuery::new());
    assert!(matches!(query, Query::Active(ActiveQuery { in_cell: false })));
    assert!(matches!(Query::Idle, Query::Idle));
}

#[test]
fn live_updates_contain_their_bounds() {
    let live = LiveUpdates { min_cell_x: -2, max_cell_x: 3, min_cell_z: 10, max_cell_z: 10 };
    assert!(live.contains(-2, 10));
    assert!(live.contains(3, 10));
    assert!(!live.contains(4, 10));
    assert!(!live.contains(-3, 10));
    assert!(!live.contains(0, 11));
    assert!(!live.contains(0, 9));
}

#[test]
fn sequence_numbers_count_up_per_sector() {
    let mut nums = SequenceNums::new();
    assert_eq!(nums.inc_and_get(b"world".to_vec(), 0, 0, 5), 6);
    assert_eq!(nums.inc_and_get(b"world".to_vec(), 0, 0, 100), 7);
    assert_eq!(nums.inc_and_get(b"world".to_vec(), 0, 1, 100), 101);
    assert_eq!(nums.inc_and_get(b"other".to_vec(), 0, 0, -1), 0);
    assert_eq!(nums.inc_and_get(b"world".to_vec(), 0, 0, 0), 8);
}

#[test]
fn sequence_number_up_to_the_limit() {
    let mut nums = SequenceNums::new();
    assert_eq!(nums.inc_and_get(b"w".to_vec(), 1, 1, i32::MAX - 1), i32::MAX);
}

#[test]
fn keyed_table_replaces_values() {
    let mut table: KeyedTable<Vec<u8>, i32> = KeyedTable::new();
    assert!(!table.contains_key(&b"a".to_vec()));
    table.insert(b"a".to_vec(), 1);
    table.insert(b"b".to_vec(), 2);
    table.insert(b"a".to_vec(), 3);
    assert_eq!(table.get(&b"a".to_vec()), Some(&3));
    assert_eq!(table.get(&b"b".to_vec()), Some(&2));
    assert_eq!(table.get(&b"c".to_vec()), None);
    assert!(bytes_equal(&b"xy".to_vec(), &b"xy".to_vec()));
    assert!(!bytes_equal(&b"xy".to_vec(), &b"xz".to_vec()));
    assert!(!bytes_equal(&b"xy".to_vec(), &b"x".to_vec()));
}

#[test]
fn attribute_set_then_get_reads_the_value() {
    let mut buffer = AttribBuffer::new();
    buffer.set(AwAttribute::LoginOwner, 1234i32);
    assert_eq!(buffer.get::<i32>(AwAttribute::LoginOwner), Some(1234));
    buffer.set(AwAttribute::LoginName, Text(b"bot".to_vec()));
    assert_eq!(buffer.get::<Text>(AwAttribute::LoginName).map(|t| t.0), Some(b"bot".to_vec()));
    let bits = 1.5f32.to_bits();
    buffer.set(AwAttribute::Other(7), FloatBits(bits));
    assert_eq!(buffer.get::<FloatBits>(AwAttribute::Other(7)).map(|f| f.0), Some(bits));
    buffer.set(AwAttribute::Other(8), vec![1u8, 2, 3]);
    assert_eq!(buffer.get::<Vec<u8>>(AwAttribute::Other(8)), Some(vec![1u8, 2, 3]));
}

#[test]
fn attribute_of_another_type_reads_nothing() {
    let mut buffer = AttribBuffer::new();
    buffer.set(AwAttribute::LoginOwner, 1234i32);
    assert!(buffer.get::<Text>(AwAttribute::LoginOwner).is_none());
    assert!(buffer.get::<FloatBits>(AwAttribute::LoginOwner).is_none());
    assert!(buffer.get::<Vec<u8>>(AwAttribute::LoginOwner).is_none());
    assert_eq!(buffer.get::<i32>(AwAttribute::LoginOwner), Some(1234));
}

#[test]
fn attribute_never_set_reads_the_default_and_keeps_it() {
    let mut buffer = AttribBuffer::new();
    assert_eq!(buffer.get::<i32>(AwAttribute::Other(1)), Some(0));
    assert!(buffer.get::<Text>(AwAttribute::Other(1)).is_none());
    assert_eq!(buffer.get::<Text>(AwAttribute::Other(2)).map(|t| t.0), Some(Vec::new()));
    assert_eq!(buffer.get::<FloatBits>(AwAttribute::Other(3)).map(|f| f.0), Some(0));
    assert_eq!(buffer.get::<Vec<u8>>(AwAttribute::Other(4)), Some(Vec::new()));
}

#[test]
fn attribute_writes_leave_others_alone() {
    let mut buffer = AttribBuffer::new();
    buffer.set(AwAttribute::Other(1), 1i32);
    buffer.set(AwAttribute::Other(2), 2i32);
    buffer.set(AwAttribute::Other(1), 10i32);
    assert_eq!(buffer.get::<i32>(AwAttribute::Other(2)), Some(2));
    assert_eq!(buffer.get::<i32>(AwAttribute::Other(1)), Some(10));
}

#[test]
fn attribute_conversions() {
    assert_eq!(into_req::<i32, i32>(5), Some(5));
    assert!(into_req::<i32, Text>(5).is_none());
    assert_eq!(into_req::<Text, Text>(Text(b"*".to_vec())).map(|t| t.0), Some(b"*".to_vec()));
    assert!(matches!(5i32.to_attrib(), AttribValue::Int(5)));
    assert!(matches!(<i32 as Attrib>::from_attrib(&AttribValue::Float(3)), None));
    assert_eq!(<i32 as Attrib>::default(), 0);
}

#[test]
fn attribute_reads_routed() {
    assert!(matches!(read_source(AwAttribute::CitizenNumber), ReadSource::VpInt(VpIntAttribute::UserId)));
    assert!(matches!(read_source(AwAttribute::AvatarPrivilege), ReadSource::VpInt(VpIntAttribute::UserId)));
    assert!(matches!(read_source(AwAttribute::ChatSession), ReadSource::VpInt(VpIntAttribute::AvatarSession)));
    assert!(matches!(read_source(AwAttribute::WorldName), ReadSource::VpString(VpStringAttribute::WorldName)));
    assert!(matches!(read_source(AwAttribute::MyY), ReadSource::VpCoordinate(VpFloatAttribute::MyY)));
    assert!(matches!(read_source(AwAttribute::AvatarZ), ReadSource::VpCoordinate(VpFloatAttribute::AvatarZ)));
    assert!(matches!(read_source(AwAttribute::WorldBuildNumber), ReadSource::Fixed(AttribValue::Int(69))));
    assert_eq!(WORLD_BUILD_NUMBER, 69);
    assert!(matches!(read_source(AwAttribute::WorldSpeakCapability), ReadSource::Fixed(AttribValue::Int(1))));
    match read_source(AwAttribute::WorldBotsRight) {
        ReadSource::Fixed(AttribValue::String(s)) => assert_eq!(s, b"*".to_vec()),
        other => panic!("unexpected {:?}", other),
    }
    assert!(matches!(read_source(AwAttribute::AvatarCitizen), ReadSource::AvatarCitizen));
    assert!(matches!(read_source(AwAttribute::LoginOwner), ReadSource::Stored));
    assert!(matches!(read_source(AwAttribute::Other(3)), ReadSource::Stored));
}

#[test]
fn attribute_writes_routed() {
    assert_eq!(write_target(AwAttribute::WorldName), WriteTarget::VpString(VpStringAttribute::WorldName));
    assert_eq!(write_target(AwAttribute::ChatMessage), WriteTarget::VpString(VpStringAttribute::ChatMessage));
    assert_eq!(write_target(AwAttribute::MyX), WriteTarget::VpCoordinate(VpFloatAttribute::MyX));
    assert_eq!(write_target(AwAttribute::AvatarX), WriteTarget::Stored);
    assert_eq!(write_target(AwAttribute::CitizenNumber), WriteTarget::Stored);
}

#[test]
fn avatar_citizen_of_bots_is_zero() {
    assert!(name_marks_bot(&b"[bot]".to_vec()));
    assert!(!name_marks_bot(&b"alice".to_vec()));
    assert!(!name_marks_bot(&Vec::new()));
    assert_eq!(avatar_citizen_number(&b"[bot]".to_vec(), 42), 0);
    assert_eq!(avatar_citizen_number(&b"alice".to_vec(), 42), 42);
    assert_eq!(avatar_citizen_number(&Vec::new(), 42), 42);
}

#[test]
fn no_current_instance() {
    let mut globals = Globals::new();
    assert_eq!(globals.current_instance().err(), Some(aw::RC_NO_INSTANCE));
    assert_eq!(globals.current_instance_mut().err(), Some(aw::RC_NO_INSTANCE));
    globals.current = 17;
    assert_eq!(globals.current_instance().err(), Some(aw::RC_INVALID_INSTANCE));
    assert_eq!(globals.current_instance_mut().err(), Some(aw::RC_INVALID_INSTANCE));
}

#[test]
fn added_instance_is_current() {
    let mut globals = Globals::new();
    globals.add_instance(Instance::new(17));
    globals.add_instance(Instance::new(23));
    assert_eq!(globals.current, 23);
    assert_eq!(globals.current_instance().map(|i| i.vp), Ok(23));
    globals.current = 17;
    globals.current_instance_mut().unwrap().attributes.set(AwAttribute::LoginOwner, 5i32);
    assert_eq!(
        globals.instances.get_mut(&17).unwrap().attributes.get::<i32>(AwAttribute::LoginOwner),
        Some(5)
    );
    assert_eq!(
        globals.instances.get_mut(&23).unwrap().attributes.get::<i32>(AwAttribute::LoginOwner),
        Some(0)
    );
}

#[test]
fn citizens_remembered_unless_zero() {
    let mut instance = Instance::new(1);
    instance.remember_citizen(b"alice".to_vec(), 12);
    instance.remember_citizen(b"tourist".to_vec(), 0);
    assert_eq!(instance.citizen_number(&b"alice".to_vec()), Some(12));
    assert_eq!(instance.citizen_number(&b"tourist".to_vec()), None);
    instance.remember_citizen(b"alice".to_vec(), 13);
    assert_eq!(instance.citizen_number(&b"alice".to_vec()), Some(13));
}

#[test]
fn decimal_writes_like_format() {
    for n in [0, 7, 10, 12, 99, 100, -1, -120, i32::MAX, i32::MIN] {
        assert_eq!(decimal(n), format!("{}", n).into_bytes());
    }
}

#[test]
fn line_prefixes() {
    assert!(starts_with(&b"12=bob".to_vec(), &b"12=".to_vec()));
    assert!(!starts_with(&b"123=bob".to_vec(), &b"12=".to_vec()));
    assert!(!starts_with(&b"12".to_vec(), &b"12=".to_vec()));
    assert!(starts_with(&b"12".to_vec(), &Vec::new()));
}

#[test]
fn second_fields() {
    assert_eq!(second_field(&b"12=bob".to_vec()), Some(b"bob".to_vec()));
    assert_eq!(second_field(&b"12=bob=x".to_vec()), Some(b"bob".to_vec()));
    assert_eq!(second_field(&b"12=".to_vec()), Some(Vec::new()));
    assert_eq!(second_field(&b"12".to_vec()), None);
}

#[test]
fn citizen_names_from_the_citizens_file() {
    let lines: Vec<Vec<u8>> =
        vec![b"1=alice".to_vec(), b"123=zed".to_vec(), b"12=bob=extra".to_vec(), b"12=carol".to_vec(), b"-3=neg".to_vec()];
    assert_eq!(citizen_name_from_lines(&lines, 12), Some(b"bob".to_vec()));
    assert_eq!(citizen_name_from_lines(&lines, 1), Some(b"alice".to_vec()));
    assert_eq!(citizen_name_from_lines(&lines, 123), Some(b"zed".to_vec()));
    assert_eq!(citizen_name_from_lines(&lines, -3), Some(b"neg".to_vec()));
    assert_eq!(citizen_name_from_lines(&lines, 2), None);
    assert_eq!(citizen_name_from_lines(&Vec::new(), 1), None);
}

#[test]
fn callbacks_and_events_hooked() {
    assert_eq!(callback_hook(AwCallback::Login), Some(VpHook::Callback(VpCallback::Login)));
    assert_eq!(callback_hook(AwCallback::Enter), Some(VpHook::Callback(VpCallback::Enter)));
    assert_eq!(
        callback_hook(AwCallback::CitizenAttributes),
        Some(VpHook::Event(VpEvent::UserAttributes))
    );
    assert_eq!(callback_hook(AwCallback::Other(9)), None);
    assert_eq!(event_hook(AwEvent::Chat), Some(VpEvent::Chat));
    assert_eq!(event_hook(AwEvent::WorldAttributes), Some(VpEvent::WorldSettingsChanged));
    assert_eq!(event_hook(AwEvent::AvatarAdd), Some(VpEvent::AvatarAdd));
    assert_eq!(event_hook(AwEvent::AvatarChange), Some(VpEvent::AvatarChange));
    assert_eq!(event_hook(AwEvent::AvatarDelete), Some(VpEvent::AvatarDelete));
    assert_eq!(event_hook(AwEvent::Other(3)), None);
    assert!(event_records_citizen(AwEvent::AvatarAdd));
    assert!(!event_records_citizen(AwEvent::Chat));
}

#[test]
fn universe_defaults() {
    assert_eq!(universe_port(0), DEFAULT_UNIVERSE_PORT);
    assert_eq!(universe_port(0), 57000);
    assert_eq!(universe_port(6670), 6670);
    assert_eq!(DEFAULT_UNIVERSE_HOST, "universe.virtualparadise.org");
}

#[test]
fn bot_names_in_brackets() {
    assert_eq!(bot_display_name(&b"Bot".to_vec()), b"[Bot]".to_vec());
    assert_eq!(bot_display_name(&Vec::new()), b"[]".to_vec());
}

#[test]
fn waits_end_as_asked() {
    assert!(wait_continues(-1, 1_000, u128::MAX));
    assert!(wait_continues(0, 0, 0));
    assert!(!wait_continues(0, 1, 0));
    assert!(wait_continues(5, 3, 5_000_000));
    assert!(!wait_continues(5, 3, 5_000_001));
    assert_eq!(wait_outcome(0), None);
    assert_eq!(wait_outcome(vp::RC_TIMEOUT), Some(aw::RC_TIMEOUT));
    assert_eq!(wait_outcome(vp::RC_CONNECTION_ERROR), Some(aw::RC_NO_CONNECTION));
}

#[test]
fn registry_installs_hooks_everywhere() {
    let mut registry: HookRegistry<u8, u16> = HookRegistry::new();
    assert!(registry.add_instance(10).is_empty());
    assert!(registry.add_instance(20).is_empty());
    let changes = registry.set_event(AwEvent::Chat, Some(1));
    let chat = VpHook::Event(VpEvent::Chat);
    assert_eq!(
        changes,
        vec![
            HookChange { instance: 10, hook: chat, install: true },
            HookChange { instance: 20, hook: chat, install: true },
        ]
    );
    assert_eq!(registry.event_handler(AwEvent::Chat), Some(&1));
    let login = VpHook::Callback(VpCallback::Login);
    let changes = registry.set_callback(AwCallback::Login, Some(7));
    assert_eq!(changes.len(), 2);
    assert!(changes.iter().all(|c| c.hook == login && c.install));
    let mut installed = registry.add_instance(30);
    installed.sort_by_key(|h| format!("{:?}", h));
    assert_eq!(installed, vec![login, chat]);
    assert!(registry.add_instance(10).len() == 2);
    let changes = registry.set_event(AwEvent::Chat, None);
    assert_eq!(changes.len(), 3);
    assert!(changes.iter().all(|c| c.hook == chat && !c.install));
    assert_eq!(changes[2].instance, 30);
    assert_eq!(registry.event_handler(AwEvent::Chat), None);
    assert_eq!(registry.add_instance(40), vec![login]);
}

#[test]
fn registry_keeps_unserved_handlers_without_hooks() {
    let mut registry: HookRegistry<u8, u16> = HookRegistry::new();
    registry.add_instance(10);
    assert!(registry.set_event(AwEvent::Other(99), Some(3)).is_empty());
    assert!(registry.set_callback(AwCallback::Other(5), Some(4)).is_empty());
    assert_eq!(registry.event_handler(AwEvent::Other(99)), Some(&3));
    assert_eq!(registry.callback_handler(AwCallback::Other(5)), Some(&4));
    assert!(registry.add_instance(11).is_empty());
}

#[test]
fn registry_citizen_attributes_callback_uses_an_event() {
    let mut registry: HookRegistry<u8, u16> = HookRegistry::new();
    registry.add_instance(10);
    let changes = registry.set_callback(AwCallback::CitizenAttributes, Some(1));
    assert_eq!(
        changes,
        vec![HookChange { instance: 10, hook: VpHook::Event(VpEvent::UserAttributes), install: true }]
    );
}

#[test]
fn attribute_reads_resolved() {
    let mut buffer = AttribBuffer::new();
    buffer.set(AwAttribute::LoginOwner, 12i32);
    let owner: Option<i32> =
        read_attribute(&mut buffer, AwAttribute::LoginOwner, read_source(AwAttribute::LoginOwner), None);
    assert_eq!(owner, Some(12));
    let build: Option<i32> = read_attribute(
        &mut buffer,
        AwAttribute::WorldBuildNumber,
        read_source(AwAttribute::WorldBuildNumber),
        Some(AttribValue::Int(5)),
    );
    assert_eq!(build, Some(69));
    let right: Option<Text> =
        read_attribute(&mut buffer, AwAttribute::WorldBotsRight, read_source(AwAttribute::WorldBotsRight), None);
    assert_eq!(right.map(|t| t.0), Some(b"*".to_vec()));
    let right_as_int: Option<i32> =
        read_attribute(&mut buffer, AwAttribute::WorldBotsRight, read_source(AwAttribute::WorldBotsRight), None);
    assert_eq!(right_as_int, None);
    let citizen: Option<i32> = read_attribute(
        &mut buffer,
        AwAttribute::CitizenNumber,
        read_source(AwAttribute::CitizenNumber),
        Some(AttribValue::Int(77)),
    );
    assert_eq!(citizen, Some(77));
    let name: Option<Text> = read_attribute(
        &mut buffer,
        AwAttribute::WorldName,
        read_source(AwAttribute::WorldName),
        Some(AttribValue::String(b"w".to_vec())),
    );
    assert_eq!(name.map(|t| t.0), Some(b"w".to_vec()));
    let missing: Option<i32> =
        read_attribute(&mut buffer, AwAttribute::MyX, read_source(AwAttribute::MyX), None);
    assert_eq!(missing, None);
    assert_eq!(buffer.get::<i32>(AwAttribute::CitizenNumber), Some(0));
}

#[test]
fn attribute_writes_resolved() {
    let mut buffer = AttribBuffer::new();
    assert!(matches!(write_attribute(&mut buffer, AwAttribute::LoginOwner, 5i32), WriteOutcome::Stored));
    assert_eq!(buffer.get::<i32>(AwAttribute::LoginOwner), Some(5));
    match write_attribute(&mut buffer, AwAttribute::WorldName, Text(b"w".to_vec())) {
        WriteOutcome::VpString(VpStringAttribute::WorldName, Some(text)) => assert_eq!(text.0, b"w".to_vec()),
        other => panic!("unexpected {:?}", other),
    }
    assert!(matches!(
        write_attribute(&mut buffer, AwAttribute::WorldName, 3i32),
        WriteOutcome::VpString(VpStringAttribute::WorldName, None)
    ));
    assert!(matches!(
        write_attribute(&mut buffer, AwAttribute::MyZ, 1500i32),
        WriteOutcome::VpCoordinate(VpFloatAttribute::MyZ, Some(1500))
    ));
    assert_eq!(buffer.get::<Text>(AwAttribute::WorldName).map(|t| t.0), Some(Vec::new()));
}
