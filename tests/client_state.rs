use rose_offline_client::character_model::CharacterModelPart;
use rose_offline_client::entity::{ClientEntity, ClientEntityList, ClientEntityType};
use rose_offline_client::game_ui::GameUiState;
use rose_offline_client::messages::{ClientEntityId, ClientMessage};
use rose_offline_client::npc_idle_sound::NpcIdleSoundState;
use rose_offline_client::systems::game_connection_system;
use rose_offline_client::zms::{ZmsAssetLoader, ZmsNoSkinAssetLoader};
use rose_offline_client::zone::{ZoneObjectPartCollisionShape, ZoneViewerUiState};

#[test]
fn entity_list_maps_ids_to_entities() {
    let mut list: ClientEntityList<u64> = ClientEntityList::default();
    assert_eq!(list.client_entities.len(), 4096);
    list.add(ClientEntityId(7), 70);
    list.add(ClientEntityId(4095), 99);
    assert_eq!(list.get(ClientEntityId(7)), Some(70));
    assert_eq!(list.get(ClientEntityId(4095)), Some(99));
    assert_eq!(list.get(ClientEntityId(8)), None);
    list.remove(ClientEntityId(7));
    assert_eq!(list.get(ClientEntityId(7)), None);
    list.player_entity = Some(1);
    list.clear();
    assert_eq!(list.get(ClientEntityId(4095)), None);
    assert_eq!(list.player_entity, Some(1));
}

#[test]
fn client_entity_keeps_its_id_and_type() {
    let entity = ClientEntity::new(ClientEntityId(12), ClientEntityType::Monster);
    assert_eq!(entity.id, ClientEntityId(12));
    assert_eq!(entity.entity_type, ClientEntityType::Monster);
}

#[test]
fn default_bone_ids() {
    assert_eq!(CharacterModelPart::CharacterFace.default_bone_id(10), Some(4));
    assert_eq!(CharacterModelPart::CharacterHair.default_bone_id(10), Some(4));
    assert_eq!(CharacterModelPart::Head.default_bone_id(10), Some(16));
    assert_eq!(CharacterModelPart::FaceItem.default_bone_id(10), Some(14));
    assert_eq!(CharacterModelPart::Back.default_bone_id(10), Some(13));
    assert_eq!(CharacterModelPart::Weapon.default_bone_id(10), None);
    assert_eq!(CharacterModelPart::Body.default_bone_id(usize::MAX), None);
}

#[test]
fn idle_sound_once_per_loop_while_standing() {
    let mut state = NpcIdleSoundState::default();
    assert!(state.update(true, 1, 5));
    assert_eq!(state.last_idle_loop_count, Some(1));
    assert!(!state.update(true, 1, 0));
    assert!(!state.update(true, 2, 20));
    assert_eq!(state.last_idle_loop_count, Some(2));
    assert!(state.update(true, 3, 19));
    assert!(!state.update(false, 4, 0));
    assert_eq!(state.last_idle_loop_count, None);
}

#[test]
fn chat_box_sends_and_clears() {
    let mut ui = GameUiState::default();
    ui.textbox_text.push_str("hello");
    ui.textbox_history.push("earlier".to_string());
    let message = ui.take_chat_message();
    assert_eq!(message, ClientMessage::Chat("hello".to_string()));
    assert_eq!(ui.textbox_text, "");
    assert_eq!(ui.textbox_history, vec!["earlier".to_string()]);
}

#[test]
fn no_skin_path_and_extensions() {
    assert_eq!(ZmsNoSkinAssetLoader::convert_path("3DDATA/NPC/A.ZMS"), "3DDATA/NPC/A.ZMS.no_skin");
    assert_eq!(ZmsAssetLoader::extension(), "zms");
    assert_eq!(ZmsNoSkinAssetLoader::extension(), "no_skin");
}

#[test]
fn zone_defaults() {
    assert_eq!(ZoneObjectPartCollisionShape::default(), ZoneObjectPartCollisionShape::AxisAlignedBoundingBox);
    assert!(ZoneViewerUiState::default().zone_list_open);
    game_connection_system();
}
