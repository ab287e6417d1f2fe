//! Server-to-client message schemas: the ordered game-event dictionary,
//! the typed decoders for the opcodes the pipeline understands, and the
//! symbolic names of property keys.

use vstd::prelude::*;
use crate::reader::{BinaryReader, ReadError, le16, le32, round_up4, ascii_ok, ascii_chars};
use crate::strfmt::{dec_chars, dec_string, hex04_chars, hex04_string, hex_lower_of, hex_encode};

verus! {

/// Sub-event codes carried by the ordered game-event envelope.
#[derive(Debug, Clone, Copy, PartialEq, Eq, Structural)]
#[allow(non_camel_case_types)]
pub enum GameEventType {
    Allegiance_AllegianceUpdateAborted,
    Communication_PopUpString,
    Login_PlayerDescription,
    Allegiance_AllegianceUpdate,
    Social_FriendsUpdate,
    Item_ServerSaysContainId,
    Item_WearItem,
    Social_CharacterTitleTable,
    Social_AddOrSetCharacterTitle,
    Item_StopViewingObjectContents,
    Vendor_VendorInfo,
    Character_StartBarber,
    Fellowship_Quit,
    Fellowship_Dismiss,
    Writing_BookOpen,
    Writing_BookAddPageResponse,
    Writing_BookDeletePageResponse,
    Writing_BookPageDataResponse,
    Item_GetInscriptionResponse,
    Item_SetAppraiseInfo,
    Character_CharacterOptionsEvent,
    Communication_ChannelBroadcast,
    Communication_ChannelList,
    Communication_ChannelIndex,
    Item_OnViewContents,
    Item_ServerSaysMoveItem,
    Combat_HandleAttackDoneEvent,
    Magic_RemoveSpell,
    Combat_HandleVictimNotificationEventSelf,
    Combat_HandleVictimNotificationEventOther,
    Combat_HandleAttackerNotificationEvent,
    Combat_HandleDefenderNotificationEvent,
    Combat_HandleEvasionAttackerNotificationEvent,
    Combat_HandleEvasionDefenderNotificationEvent,
    Combat_HandleCommenceAttackEvent,
    Combat_QueryHealthResponse,
    Character_QueryAgeResponse,
    Item_UseDone,
    Allegiance_AllegianceUpdateDone,
    Fellowship_FellowUpdateDone,
    Fellowship_FellowStatsDone,
    Item_AppraiseDone,
    Character_ReturnPing,
    Communication_SetSquelchDB,
    Trade_RegisterTrade,
    Trade_OpenTrade,
    Trade_CloseTrade,
    Trade_AddToTrade,
    Trade_RemoveFromTrade,
    Trade_AcceptTrade,
    Trade_DeclineTrade,
    Trade_ResetTrade,
    Trade_TradeFailure,
    Trade_ClearTradeAcceptance,
    House_HouseProfile,
    House_HouseData,
    House_HouseStatus,
    House_UpdateRentTime,
    House_UpdateRentPayment,
    House_UpdateRestrictions,
    House_UpdateHAR,
    House_HouseTransaction,
    Item_QueryItemManaResponse,
    House_AvailableHouses,
    Character_ConfirmationRequest,
    Character_ConfirmationDone,
    Allegiance_AllegianceLoginNotificationEvent,
    Allegiance_AllegianceInfoResponseEvent,
    Game_JoinGameResponse,
    Game_StartGame,
    Game_MoveResponse,
    Game_OpponentTurn,
    Game_OpponentStalemateState,
    Communication_WeenieError,
    Communication_WeenieErrorWithString,
    Game_GameOver,
    Communication_ChatRoomTracker,
    Admin_QueryPluginList,
    Admin_QueryPlugin,
    Admin_QueryPluginResponse2,
    Inventory_SalvageOperationsResultData,
    Communication_HearDirectSpeech,
    Fellowship_FullUpdate,
    Fellowship_Disband,
    Fellowship_UpdateFellow,
    Magic_UpdateSpell,
    Magic_UpdateEnchantment,
    Magic_RemoveEnchantment,
    Magic_UpdateMultipleEnchantments,
    Magic_RemoveMultipleEnchantments,
    Magic_PurgeEnchantments,
    Magic_DispelEnchantment,
    Magic_DispelMultipleEnchantments,
    Misc_PortalStormBrewing,
    Misc_PortalStormImminent,
    Misc_PortalStorm,
    Misc_PortalStormSubsided,
    Communication_TransientString,
    Magic_PurgeBadEnchantments,
    Social_SendClientContractTrackerTable,
    Social_SendClientContractTracker,
    Unknown,
}

/// The sub-event for a raw event-type code; codes outside the table map
/// to `Unknown`.
pub open spec fn game_event_type_from(value: u32) -> GameEventType {
    if value == 0x0003 {
        GameEventType::Allegiance_AllegianceUpdateAborted
    } else if value == 0x0004 {
        GameEventType::Communication_PopUpString
    } else if value == 0x0013 {
        GameEventType::Login_PlayerDescription
    } else if value == 0x0020 {
        GameEventType::Allegiance_AllegianceUpdate
    } else if value == 0x0021 {
        GameEventType::Social_FriendsUpdate
    } else if value == 0x0022 {
        GameEventType::Item_ServerSaysContainId
    } else if value == 0x0023 {
        GameEventType::Item_WearItem
    } else if value == 0x0029 {
        GameEventType::Social_CharacterTitleTable
    } else if value == 0x002B {
        GameEventType::Social_AddOrSetCharacterTitle
    } else if value == 0x0052 {
        GameEventType::Item_StopViewingObjectContents
    } else if value == 0x0062 {
        GameEventType::Vendor_VendorInfo
    } else if value == 0x0075 {
        GameEventType::Character_StartBarber
    } else if value == 0x00A3 {
        GameEventType::Fellowship_Quit
    } else if value == 0x00A4 {
        GameEventType::Fellowship_Dismiss
    } else if value == 0x00B4 {
        GameEventType::Writing_BookOpen
    } else if value == 0x00B6 {
        GameEventType::Writing_BookAddPageResponse
    } else if value == 0x00B7 {
        GameEventType::Writing_BookDeletePageResponse
    } else if value == 0x00B8 {
        GameEventType::Writing_BookPageDataResponse
    } else if value == 0x00C3 {
        GameEventType::Item_GetInscriptionResponse
    } else if value == 0x00C9 {
        GameEventType::Item_SetAppraiseInfo
    } else if value == 0x00F7 {
        GameEventType::Character_CharacterOptionsEvent
    } else if value == 0x0147 {
        GameEventType::Communication_ChannelBroadcast
    } else if value == 0x0148 {
        GameEventType::Communication_ChannelList
    } else if value == 0x0149 {
        GameEventType::Communication_ChannelIndex
    } else if value == 0x0196 {
        GameEventType::Item_OnViewContents
    } else if value == 0x019A {
        GameEventType::Item_ServerSaysMoveItem
    } else if value == 0x01A7 {
        GameEventType::Combat_HandleAttackDoneEvent
    } else if value == 0x01A8 {
        GameEventType::Magic_RemoveSpell
    } else if value == 0x01AC {
        GameEventType::Combat_HandleVictimNotificationEventSelf
    } else if value == 0x01AD {
        GameEventType::Combat_HandleVictimNotificationEventOther
    } else if value == 0x01B1 {
        GameEventType::Combat_HandleAttackerNotificationEvent
    } else if value == 0x01B2 {
        GameEventType::Combat_HandleDefenderNotificationEvent
    } else if value == 0x01B3 {
        GameEventType::Combat_HandleEvasionAttackerNotificationEvent
    } else if value == 0x01B4 {
        GameEventType::Combat_HandleEvasionDefenderNotificationEvent
    } else if value == 0x01B8 {
        GameEventType::Combat_HandleCommenceAttackEvent
    } else if value == 0x01C0 {
        GameEventType::Combat_QueryHealthResponse
    } else if value == 0x01C3 {
        GameEventType::Character_QueryAgeResponse
    } else if value == 0x01C7 {
        GameEventType::Item_UseDone
    } else if value == 0x01C8 {
        GameEventType::Allegiance_AllegianceUpdateDone
    } else if value == 0x01C9 {
        GameEventType::Fellowship_FellowUpdateDone
    } else if value == 0x01CA {
        GameEventType::Fellowship_FellowStatsDone
    } else if value == 0x01CB {
        GameEventType::Item_AppraiseDone
    } else if value == 0x01EA {
        GameEventType::Character_ReturnPing
    } else if value == 0x01F4 {
        GameEventType::Communication_SetSquelchDB
    } else if value == 0x01FD {
        GameEventType::Trade_RegisterTrade
    } else if value == 0x01FE {
        GameEventType::Trade_OpenTrade
    } else if value == 0x01FF {
        GameEventType::Trade_CloseTrade
    } else if value == 0x0200 {
        GameEventType::Trade_AddToTrade
    } else if value == 0x0201 {
        GameEventType::Trade_RemoveFromTrade
    } else if value == 0x0202 {
        GameEventType::Trade_AcceptTrade
    } else if value == 0x0203 {
        GameEventType::Trade_DeclineTrade
    } else if value == 0x0205 {
        GameEventType::Trade_ResetTrade
    } else if value == 0x0207 {
        GameEventType::Trade_TradeFailure
    } else if value == 0x0208 {
        GameEventType::Trade_ClearTradeAcceptance
    } else if value == 0x021D {
        GameEventType::House_HouseProfile
    } else if value == 0x0225 {
        GameEventType::House_HouseData
    } else if value == 0x0226 {
        GameEventType::House_HouseStatus
    } else if value == 0x0227 {
        GameEventType::House_UpdateRentTime
    } else if value == 0x0228 {
        GameEventType::House_UpdateRentPayment
    } else if value == 0x0248 {
        GameEventType::House_UpdateRestrictions
    } else if value == 0x0257 {
        GameEventType::House_UpdateHAR
    } else if value == 0x0259 {
        GameEventType::House_HouseTransaction
    } else if value == 0x0264 {
        GameEventType::Item_QueryItemManaResponse
    } else if value == 0x0271 {
        GameEventType::House_AvailableHouses
    } else if value == 0x0274 {
        GameEventType::Character_ConfirmationRequest
    } else if value == 0x0276 {
        GameEventType::Character_ConfirmationDone
    } else if value == 0x027A {
        GameEventType::Allegiance_AllegianceLoginNotificationEvent
    } else if value == 0x027C {
        GameEventType::Allegiance_AllegianceInfoResponseEvent
    } else if value == 0x0281 {
        GameEventType::Game_JoinGameResponse
    } else if value == 0x0282 {
        GameEventType::Game_StartGame
    } else if value == 0x0283 {
        GameEventType::Game_MoveResponse
    } else if value == 0x0284 {
        GameEventType::Game_OpponentTurn
    } else if value == 0x0285 {
        GameEventType::Game_OpponentStalemateState
    } else if value == 0x028A {
        GameEventType::Communication_WeenieError
    } else if value == 0x028B {
        GameEventType::Communication_WeenieErrorWithString
    } else if value == 0x028C {
        GameEventType::Game_GameOver
    } else if value == 0x0295 {
        GameEventType::Communication_ChatRoomTracker
    } else if value == 0x02AE {
        GameEventType::Admin_QueryPluginList
    } else if value == 0x02B1 {
        GameEventType::Admin_QueryPlugin
    } else if value == 0x02B3 {
        GameEventType::Admin_QueryPluginResponse2
    } else if value == 0x02B4 {
        GameEventType::Inventory_SalvageOperationsResultData
    } else if value == 0x02BD {
        GameEventType::Communication_HearDirectSpeech
    } else if value == 0x02BE {
        GameEventType::Fellowship_FullUpdate
    } else if value == 0x02BF {
        GameEventType::Fellowship_Disband
    } else if value == 0x02C0 {
        GameEventType::Fellowship_UpdateFellow
    } else if value == 0x02C1 {
        GameEventType::Magic_UpdateSpell
    } else if value == 0x02C2 {
        GameEventType::Magic_UpdateEnchantment
    } else if value == 0x02C3 {
        GameEventType::Magic_RemoveEnchantment
    } else if value == 0x02C4 {
        GameEventType::Magic_UpdateMultipleEnchantments
    } else if value == 0x02C5 {
        GameEventType::Magic_RemoveMultipleEnchantments
    } else if value == 0x02C6 {
        GameEventType::Magic_PurgeEnchantments
    } else if value == 0x02C7 {
        GameEventType::Magic_DispelEnchantment
    } else if value == 0x02C8 {
        GameEventType::Magic_DispelMultipleEnchantments
    } else if value == 0x02C9 {
        GameEventType::Misc_PortalStormBrewing
    } else if value == 0x02CA {
        GameEventType::Misc_PortalStormImminent
    } else if value == 0x02CB {
        GameEventType::Misc_PortalStorm
    } else if value == 0x02CC {
        GameEventType::Misc_PortalStormSubsided
    } else if value == 0x02EB {
        GameEventType::Communication_TransientString
    } else if value == 0x0312 {
        GameEventType::Magic_PurgeBadEnchantments
    } else if value == 0x0314 {
        GameEventType::Social_SendClientContractTrackerTable
    } else if value == 0x0315 {
        GameEventType::Social_SendClientContractTracker
    } else {
        GameEventType::Unknown
    }
}

/// The symbolic name of each sub-event.
pub open spec fn game_event_name_spec(e: GameEventType) -> Seq<char> {
    match e {
        GameEventType::Allegiance_AllegianceUpdateAborted => "Allegiance_AllegianceUpdateAborted"@,
        GameEventType::Communication_PopUpString => "Communication_PopUpString"@,
        GameEventType::Login_PlayerDescription => "Login_PlayerDescription"@,
        GameEventType::Allegiance_AllegianceUpdate => "Allegiance_AllegianceUpdate"@,
        GameEventType::Social_FriendsUpdate => "Social_FriendsUpdate"@,
        GameEventType::Item_ServerSaysContainId => "Item_ServerSaysContainId"@,
        GameEventType::Item_WearItem => "Item_WearItem"@,
        GameEventType::Social_CharacterTitleTable => "Social_CharacterTitleTable"@,
        GameEventType::Social_AddOrSetCharacterTitle => "Social_AddOrSetCharacterTitle"@,
        GameEventType::Item_StopViewingObjectContents => "Item_StopViewingObjectContents"@,
        GameEventType::Vendor_VendorInfo => "Vendor_VendorInfo"@,
        GameEventType::Character_StartBarber => "Character_StartBarber"@,
        GameEventType::Fellowship_Quit => "Fellowship_Quit"@,
        GameEventType::Fellowship_Dismiss => "Fellowship_Dismiss"@,
        GameEventType::Writing_BookOpen => "Writing_BookOpen"@,
        GameEventType::Writing_BookAddPageResponse => "Writing_BookAddPageResponse"@,
        GameEventType::Writing_BookDeletePageResponse => "Writing_BookDeletePageResponse"@,
        GameEventType::Writing_BookPageDataResponse => "Writing_BookPageDataResponse"@,
        GameEventType::Item_GetInscriptionResponse => "Item_GetInscriptionResponse"@,
        GameEventType::Item_SetAppraiseInfo => "Item_SetAppraiseInfo"@,
        GameEventType::Character_CharacterOptionsEvent => "Character_CharacterOptionsEvent"@,
        GameEventType::Communication_ChannelBroadcast => "Communication_ChannelBroadcast"@,
        GameEventType::Communication_ChannelList => "Communication_ChannelList"@,
        GameEventType::Communication_ChannelIndex => "Communication_ChannelIndex"@,
        GameEventType::Item_OnViewContents => "Item_OnViewContents"@,
        GameEventType::Item_ServerSaysMoveItem => "Item_ServerSaysMoveItem"@,
        GameEventType::Combat_HandleAttackDoneEvent => "Combat_HandleAttackDoneEvent"@,
        GameEventType::Magic_RemoveSpell => "Magic_RemoveSpell"@,
        GameEventType::Combat_HandleVictimNotificationEventSelf => "Combat_HandleVictimNotificationEventSelf"@,
        GameEventType::Combat_HandleVictimNotificationEventOther => "Combat_HandleVictimNotificationEventOther"@,
        GameEventType::Combat_HandleAttackerNotificationEvent => "Combat_HandleAttackerNotificationEvent"@,
        GameEventType::Combat_HandleDefenderNotificationEvent => "Combat_HandleDefenderNotificationEvent"@,
        GameEventType::Combat_HandleEvasionAttackerNotificationEvent => "Combat_HandleEvasionAttackerNotificationEvent"@,
        GameEventType::Combat_HandleEvasionDefenderNotificationEvent => "Combat_HandleEvasionDefenderNotificationEvent"@,
        GameEventType::Combat_HandleCommenceAttackEvent => "Combat_HandleCommenceAttackEvent"@,
        GameEventType::Combat_QueryHealthResponse => "Combat_QueryHealthResponse"@,
        GameEventType::Character_QueryAgeResponse => "Character_QueryAgeResponse"@,
        GameEventType::Item_UseDone => "Item_UseDone"@,
        GameEventType::Allegiance_AllegianceUpdateDone => "Allegiance_AllegianceUpdateDone"@,
        GameEventType::Fellowship_FellowUpdateDone => "Fellowship_FellowUpdateDone"@,
        GameEventType::Fellowship_FellowStatsDone => "Fellowship_FellowStatsDone"@,
        GameEventType::Item_AppraiseDone => "Item_AppraiseDone"@,
        GameEventType::Character_ReturnPing => "Character_ReturnPing"@,
        GameEventType::Communication_SetSquelchDB => "Communication_SetSquelchDB"@,
        GameEventType::Trade_RegisterTrade => "Trade_RegisterTrade"@,
        GameEventType::Trade_OpenTrade => "Trade_OpenTrade"@,
        GameEventType::Trade_CloseTrade => "Trade_CloseTrade"@,
        GameEventType::Trade_AddToTrade => "Trade_AddToTrade"@,
        GameEventType::Trade_RemoveFromTrade => "Trade_RemoveFromTrade"@,
        GameEventType::Trade_AcceptTrade => "Trade_AcceptTrade"@,
        GameEventType::Trade_DeclineTrade => "Trade_DeclineTrade"@,
        GameEventType::Trade_ResetTrade => "Trade_ResetTrade"@,
        GameEventType::Trade_TradeFailure => "Trade_TradeFailure"@,
        GameEventType::Trade_ClearTradeAcceptance => "Trade_ClearTradeAcceptance"@,
        GameEventType::House_HouseProfile => "House_HouseProfile"@,
        GameEventType::House_HouseData => "House_HouseData"@,
        GameEventType::House_HouseStatus => "House_HouseStatus"@,
        GameEventType::House_UpdateRentTime => "House_UpdateRentTime"@,
        GameEventType::House_UpdateRentPayment => "House_UpdateRentPayment"@,
        GameEventType::House_UpdateRestrictions => "House_UpdateRestrictions"@,
        GameEventType::House_UpdateHAR => "House_UpdateHAR"@,
        GameEventType::House_HouseTransaction => "House_HouseTransaction"@,
        GameEventType::Item_QueryItemManaResponse => "Item_QueryItemManaResponse"@,
        GameEventType::House_AvailableHouses => "House_AvailableHouses"@,
        GameEventType::Character_ConfirmationRequest => "Character_ConfirmationRequest"@,
        GameEventType::Character_ConfirmationDone => "Character_ConfirmationDone"@,
        GameEventType::Allegiance_AllegianceLoginNotificationEvent => "Allegiance_AllegianceLoginNotificationEvent"@,
        GameEventType::Allegiance_AllegianceInfoResponseEvent => "Allegiance_AllegianceInfoResponseEvent"@,
        GameEventType::Game_JoinGameResponse => "Game_JoinGameResponse"@,
        GameEventType::Game_StartGame => "Game_StartGame"@,
        GameEventType::Game_MoveResponse => "Game_MoveResponse"@,
        GameEventType::Game_OpponentTurn => "Game_OpponentTurn"@,
        GameEventType::Game_OpponentStalemateState => "Game_OpponentStalemateState"@,
        GameEventType::Communication_WeenieError => "Communication_WeenieError"@,
        GameEventType::Communication_WeenieErrorWithString => "Communication_WeenieErrorWithString"@,
        GameEventType::Game_GameOver => "Game_GameOver"@,
        GameEventType::Communication_ChatRoomTracker => "Communication_ChatRoomTracker"@,
        GameEventType::Admin_QueryPluginList => "Admin_QueryPluginList"@,
        GameEventType::Admin_QueryPlugin => "Admin_QueryPlugin"@,
        GameEventType::Admin_QueryPluginResponse2 => "Admin_QueryPluginResponse2"@,
        GameEventType::Inventory_SalvageOperationsResultData => "Inventory_SalvageOperationsResultData"@,
        GameEventType::Communication_HearDirectSpeech => "Communication_HearDirectSpeech"@,
        GameEventType::Fellowship_FullUpdate => "Fellowship_FullUpdate"@,
        GameEventType::Fellowship_Disband => "Fellowship_Disband"@,
        GameEventType::Fellowship_UpdateFellow => "Fellowship_UpdateFellow"@,
        GameEventType::Magic_UpdateSpell => "Magic_UpdateSpell"@,
        GameEventType::Magic_UpdateEnchantment => "Magic_UpdateEnchantment"@,
        GameEventType::Magic_RemoveEnchantment => "Magic_RemoveEnchantment"@,
        GameEventType::Magic_UpdateMultipleEnchantments => "Magic_UpdateMultipleEnchantments"@,
        GameEventType::Magic_RemoveMultipleEnchantments => "Magic_RemoveMultipleEnchantments"@,
        GameEventType::Magic_PurgeEnchantments => "Magic_PurgeEnchantments"@,
        GameEventType::Magic_DispelEnchantment => "Magic_DispelEnchantment"@,
        GameEventType::Magic_DispelMultipleEnchantments => "Magic_DispelMultipleEnchantments"@,
        GameEventType::Misc_PortalStormBrewing => "Misc_PortalStormBrewing"@,
        GameEventType::Misc_PortalStormImminent => "Misc_PortalStormImminent"@,
        GameEventType::Misc_PortalStorm => "Misc_PortalStorm"@,
        GameEventType::Misc_PortalStormSubsided => "Misc_PortalStormSubsided"@,
        GameEventType::Communication_TransientString => "Communication_TransientString"@,
        GameEventType::Magic_PurgeBadEnchantments => "Magic_PurgeBadEnchantments"@,
        GameEventType::Social_SendClientContractTrackerTable => "Social_SendClientContractTrackerTable"@,
        GameEventType::Social_SendClientContractTracker => "Social_SendClientContractTracker"@,
        GameEventType::Unknown => "Unknown"@,
    }
}

impl GameEventType {
    pub fn from_u32(value: u32) -> (r: Self)
        ensures
            r == game_event_type_from(value),
    {
        match value {
            0x0003 => GameEventType::Allegiance_AllegianceUpdateAborted,
            0x0004 => GameEventType::Communication_PopUpString,
            0x0013 => GameEventType::Login_PlayerDescription,
            0x0020 => GameEventType::Allegiance_AllegianceUpdate,
            0x0021 => GameEventType::Social_FriendsUpdate,
            0x0022 => GameEventType::Item_ServerSaysContainId,
            0x0023 => GameEventType::Item_WearItem,
            0x0029 => GameEventType::Social_CharacterTitleTable,
            0x002B => GameEventType::Social_AddOrSetCharacterTitle,
            0x0052 => GameEventType::Item_StopViewingObjectContents,
            0x0062 => GameEventType::Vendor_VendorInfo,
            0x0075 => GameEventType::Character_StartBarber,
            0x00A3 => GameEventType::Fellowship_Quit,
            0x00A4 => GameEventType::Fellowship_Dismiss,
            0x00B4 => GameEventType::Writing_BookOpen,
            0x00B6 => GameEventType::Writing_BookAddPageResponse,
            0x00B7 => GameEventType::Writing_BookDeletePageResponse,
            0x00B8 => GameEventType::Writing_BookPageDataResponse,
            0x00C3 => GameEventType::Item_GetInscriptionResponse,
            0x00C9 => GameEventType::Item_SetAppraiseInfo,
            0x00F7 => GameEventType::Character_CharacterOptionsEvent,
            0x0147 => GameEventType::Communication_ChannelBroadcast,
            0x0148 => GameEventType::Communication_ChannelList,
            0x0149 => GameEventType::Communication_ChannelIndex,
            0x0196 => GameEventType::Item_OnViewContents,
            0x019A => GameEventType::Item_ServerSaysMoveItem,
            0x01A7 => GameEventType::Combat_HandleAttackDoneEvent,
            0x01A8 => GameEventType::Magic_RemoveSpell,
            0x01AC => GameEventType::Combat_HandleVictimNotificationEventSelf,
            0x01AD => GameEventType::Combat_HandleVictimNotificationEventOther,
            0x01B1 => GameEventType::Combat_HandleAttackerNotificationEvent,
            0x01B2 => GameEventType::Combat_HandleDefenderNotificationEvent,
            0x01B3 => GameEventType::Combat_HandleEvasionAttackerNotificationEvent,
            0x01B4 => GameEventType::Combat_HandleEvasionDefenderNotificationEvent,
            0x01B8 => GameEventType::Combat_HandleCommenceAttackEvent,
            0x01C0 => GameEventType::Combat_QueryHealthResponse,
            0x01C3 => GameEventType::Character_QueryAgeResponse,
            0x01C7 => GameEventType::Item_UseDone,
            0x01C8 => GameEventType::Allegiance_AllegianceUpdateDone,
            0x01C9 => GameEventType::Fellowship_FellowUpdateDone,
            0x01CA => GameEventType::Fellowship_FellowStatsDone,
            0x01CB => GameEventType::Item_AppraiseDone,
            0x01EA => GameEventType::Character_ReturnPing,
            0x01F4 => GameEventType::Communication_SetSquelchDB,
            0x01FD => GameEventType::Trade_RegisterTrade,
            0x01FE => GameEventType::Trade_OpenTrade,
            0x01FF => GameEventType::Trade_CloseTrade,
            0x0200 => GameEventType::Trade_AddToTrade,
            0x0201 => GameEventType::Trade_RemoveFromTrade,
            0x0202 => GameEventType::Trade_AcceptTrade,
            0x0203 => GameEventType::Trade_DeclineTrade,
            0x0205 => GameEventType::Trade_ResetTrade,
            0x0207 => GameEventType::Trade_TradeFailure,
            0x0208 => GameEventType::Trade_ClearTradeAcceptance,
            0x021D => GameEventType::House_HouseProfile,
            0x0225 => GameEventType::House_HouseData,
            0x0226 => GameEventType::House_HouseStatus,
            0x0227 => GameEventType::House_UpdateRentTime,
            0x0228 => GameEventType::House_UpdateRentPayment,
            0x0248 => GameEventType::House_UpdateRestrictions,
            0x0257 => GameEventType::House_UpdateHAR,
            0x0259 => GameEventType::House_HouseTransaction,
            0x0264 => GameEventType::Item_QueryItemManaResponse,
            0x0271 => GameEventType::House_AvailableHouses,
            0x0274 => GameEventType::Character_ConfirmationRequest,
            0x0276 => GameEventType::Character_ConfirmationDone,
            0x027A => GameEventType::Allegiance_AllegianceLoginNotificationEvent,
            0x027C => GameEventType::Allegiance_AllegianceInfoResponseEvent,
            0x0281 => GameEventType::Game_JoinGameResponse,
            0x0282 => GameEventType::Game_StartGame,
            0x0283 => GameEventType::Game_MoveResponse,
            0x0284 => GameEventType::Game_OpponentTurn,
            0x0285 => GameEventType::Game_OpponentStalemateState,
            0x028A => GameEventType::Communication_WeenieError,
            0x028B => GameEventType::Communication_WeenieErrorWithString,
            0x028C => GameEventType::Game_GameOver,
            0x0295 => GameEventType::Communication_ChatRoomTracker,
            0x02AE => GameEventType::Admin_QueryPluginList,
            0x02B1 => GameEventType::Admin_QueryPlugin,
            0x02B3 => GameEventType::Admin_QueryPluginResponse2,
            0x02B4 => GameEventType::Inventory_SalvageOperationsResultData,
            0x02BD => GameEventType::Communication_HearDirectSpeech,
            0x02BE => GameEventType::Fellowship_FullUpdate,
            0x02BF => GameEventType::Fellowship_Disband,
            0x02C0 => GameEventType::Fellowship_UpdateFellow,
            0x02C1 => GameEventType::Magic_UpdateSpell,
            0x02C2 => GameEventType::Magic_UpdateEnchantment,
            0x02C3 => GameEventType::Magic_RemoveEnchantment,
            0x02C4 => GameEventType::Magic_UpdateMultipleEnchantments,
            0x02C5 => GameEventType::Magic_RemoveMultipleEnchantments,
            0x02C6 => GameEventType::Magic_PurgeEnchantments,
            0x02C7 => GameEventType::Magic_DispelEnchantment,
            0x02C8 => GameEventType::Magic_DispelMultipleEnchantments,
            0x02C9 => GameEventType::Misc_PortalStormBrewing,
            0x02CA => GameEventType::Misc_PortalStormImminent,
            0x02CB => GameEventType::Misc_PortalStorm,
            0x02CC => GameEventType::Misc_PortalStormSubsided,
            0x02EB => GameEventType::Communication_TransientString,
            0x0312 => GameEventType::Magic_PurgeBadEnchantments,
            0x0314 => GameEventType::Social_SendClientContractTrackerTable,
            0x0315 => GameEventType::Social_SendClientContractTracker,
            _ => GameEventType::Unknown,
        }
    }

    pub fn name(&self) -> (r: &'static str)
        ensures
            r@ == game_event_name_spec(*self),
    {
        match self {
            GameEventType::Allegiance_AllegianceUpdateAborted => "Allegiance_AllegianceUpdateAborted",
            GameEventType::Communication_PopUpString => "Communication_PopUpString",
            GameEventType::Login_PlayerDescription => "Login_PlayerDescription",
            GameEventType::Allegiance_AllegianceUpdate => "Allegiance_AllegianceUpdate",
            GameEventType::Social_FriendsUpdate => "Social_FriendsUpdate",
            GameEventType::Item_ServerSaysContainId => "Item_ServerSaysContainId",
            GameEventType::Item_WearItem => "Item_WearItem",
            GameEventType::Social_CharacterTitleTable => "Social_CharacterTitleTable",
            GameEventType::Social_AddOrSetCharacterTitle => "Social_AddOrSetCharacterTitle",
            GameEventType::Item_StopViewingObjectContents => "Item_StopViewingObjectContents",
            GameEventType::Vendor_VendorInfo => "Vendor_VendorInfo",
            GameEventType::Character_StartBarber => "Character_StartBarber",
            GameEventType::Fellowship_Quit => "Fellowship_Quit",
            GameEventType::Fellowship_Dismiss => "Fellowship_Dismiss",
            GameEventType::Writing_BookOpen => "Writing_BookOpen",
            GameEventType::Writing_BookAddPageResponse => "Writing_BookAddPageResponse",
            GameEventType::Writing_BookDeletePageResponse => "Writing_BookDeletePageResponse",
            GameEventType::Writing_BookPageDataResponse => "Writing_BookPageDataResponse",
            GameEventType::Item_GetInscriptionResponse => "Item_GetInscriptionResponse",
            GameEventType::Item_SetAppraiseInfo => "Item_SetAppraiseInfo",
            GameEventType::Character_CharacterOptionsEvent => "Character_CharacterOptionsEvent",
            GameEventType::Communication_ChannelBroadcast => "Communication_ChannelBroadcast",
            GameEventType::Communication_ChannelList => "Communication_ChannelList",
            GameEventType::Communication_ChannelIndex => "Communication_ChannelIndex",
            GameEventType::Item_OnViewContents => "Item_OnViewContents",
            GameEventType::Item_ServerSaysMoveItem => "Item_ServerSaysMoveItem",
            GameEventType::Combat_HandleAttackDoneEvent => "Combat_HandleAttackDoneEvent",
            GameEventType::Magic_RemoveSpell => "Magic_RemoveSpell",
            GameEventType::Combat_HandleVictimNotificationEventSelf => "Combat_HandleVictimNotificationEventSelf",
            GameEventType::Combat_HandleVictimNotificationEventOther => "Combat_HandleVictimNotificationEventOther",
            GameEventType::Combat_HandleAttackerNotificationEvent => "Combat_HandleAttackerNotificationEvent",
            GameEventType::Combat_HandleDefenderNotificationEvent => "Combat_HandleDefenderNotificationEvent",
            GameEventType::Combat_HandleEvasionAttackerNotificationEvent => "Combat_HandleEvasionAttackerNotificationEvent",
            GameEventType::Combat_HandleEvasionDefenderNotificationEvent => "Combat_HandleEvasionDefenderNotificationEvent",
            GameEventType::Combat_HandleCommenceAttackEvent => "Combat_HandleCommenceAttackEvent",
            GameEventType::Combat_QueryHealthResponse => "Combat_QueryHealthResponse",
            GameEventType::Character_QueryAgeResponse => "Character_QueryAgeResponse",
            GameEventType::Item_UseDone => "Item_UseDone",
            GameEventType::Allegiance_AllegianceUpdateDone => "Allegiance_AllegianceUpdateDone",
            GameEventType::Fellowship_FellowUpdateDone => "Fellowship_FellowUpdateDone",
            GameEventType::Fellowship_FellowStatsDone => "Fellowship_FellowStatsDone",
            GameEventType::Item_AppraiseDone => "Item_AppraiseDone",
            GameEventType::Character_ReturnPing => "Character_ReturnPing",
            GameEventType::Communication_SetSquelchDB => "Communication_SetSquelchDB",
            GameEventType::Trade_RegisterTrade => "Trade_RegisterTrade",
            GameEventType::Trade_OpenTrade => "Trade_OpenTrade",
            GameEventType::Trade_CloseTrade => "Trade_CloseTrade",
            GameEventType::Trade_AddToTrade => "Trade_AddToTrade",
            GameEventType::Trade_RemoveFromTrade => "Trade_RemoveFromTrade",
            GameEventType::Trade_AcceptTrade => "Trade_AcceptTrade",
            GameEventType::Trade_DeclineTrade => "Trade_DeclineTrade",
            GameEventType::Trade_ResetTrade => "Trade_ResetTrade",
            GameEventType::Trade_TradeFailure => "Trade_TradeFailure",
            GameEventType::Trade_ClearTradeAcceptance => "Trade_ClearTradeAcceptance",
            GameEventType::House_HouseProfile => "House_HouseProfile",
            GameEventType::House_HouseData => "House_HouseData",
            GameEventType::House_HouseStatus => "House_HouseStatus",
            GameEventType::House_UpdateRentTime => "House_UpdateRentTime",
            GameEventType::House_UpdateRentPayment => "House_UpdateRentPayment",
            GameEventType::House_UpdateRestrictions => "House_UpdateRestrictions",
            GameEventType::House_UpdateHAR => "House_UpdateHAR",
            GameEventType::House_HouseTransaction => "House_HouseTransaction",
            GameEventType::Item_QueryItemManaResponse => "Item_QueryItemManaResponse",
            GameEventType::House_AvailableHouses => "House_AvailableHouses",
            GameEventType::Character_ConfirmationRequest => "Character_ConfirmationRequest",
            GameEventType::Character_ConfirmationDone => "Character_ConfirmationDone",
            GameEventType::Allegiance_AllegianceLoginNotificationEvent => "Allegiance_AllegianceLoginNotificationEvent",
            GameEventType::Allegiance_AllegianceInfoResponseEvent => "Allegiance_AllegianceInfoResponseEvent",
            GameEventType::Game_JoinGameResponse => "Game_JoinGameResponse",
            GameEventType::Game_StartGame => "Game_StartGame",
            GameEventType::Game_MoveResponse => "Game_MoveResponse",
            GameEventType::Game_OpponentTurn => "Game_OpponentTurn",
            GameEventType::Game_OpponentStalemateState => "Game_OpponentStalemateState",
            GameEventType::Communication_WeenieError => "Communication_WeenieError",
            GameEventType::Communication_WeenieErrorWithString => "Communication_WeenieErrorWithString",
            GameEventType::Game_GameOver => "Game_GameOver",
            GameEventType::Communication_ChatRoomTracker => "Communication_ChatRoomTracker",
            GameEventType::Admin_QueryPluginList => "Admin_QueryPluginList",
            GameEventType::Admin_QueryPlugin => "Admin_QueryPlugin",
            GameEventType::Admin_QueryPluginResponse2 => "Admin_QueryPluginResponse2",
            GameEventType::Inventory_SalvageOperationsResultData => "Inventory_SalvageOperationsResultData",
            GameEventType::Communication_HearDirectSpeech => "Communication_HearDirectSpeech",
            GameEventType::Fellowship_FullUpdate => "Fellowship_FullUpdate",
            GameEventType::Fellowship_Disband => "Fellowship_Disband",
            GameEventType::Fellowship_UpdateFellow => "Fellowship_UpdateFellow",
            GameEventType::Magic_UpdateSpell => "Magic_UpdateSpell",
            GameEventType::Magic_UpdateEnchantment => "Magic_UpdateEnchantment",
            GameEventType::Magic_RemoveEnchantment => "Magic_RemoveEnchantment",
            GameEventType::Magic_UpdateMultipleEnchantments => "Magic_UpdateMultipleEnchantments",
            GameEventType::Magic_RemoveMultipleEnchantments => "Magic_RemoveMultipleEnchantments",
            GameEventType::Magic_PurgeEnchantments => "Magic_PurgeEnchantments",
            GameEventType::Magic_DispelEnchantment => "Magic_DispelEnchantment",
            GameEventType::Magic_DispelMultipleEnchantments => "Magic_DispelMultipleEnchantments",
            GameEventType::Misc_PortalStormBrewing => "Misc_PortalStormBrewing",
            GameEventType::Misc_PortalStormImminent => "Misc_PortalStormImminent",
            GameEventType::Misc_PortalStorm => "Misc_PortalStorm",
            GameEventType::Misc_PortalStormSubsided => "Misc_PortalStormSubsided",
            GameEventType::Communication_TransientString => "Communication_TransientString",
            GameEventType::Magic_PurgeBadEnchantments => "Magic_PurgeBadEnchantments",
            GameEventType::Social_SendClientContractTrackerTable => "Social_SendClientContractTrackerTable",
            GameEventType::Social_SendClientContractTracker => "Social_SendClientContractTracker",
            GameEventType::Unknown => "Unknown",
        }
    }
}

/// The symbolic name of an integer property key; unknown keys format as
/// `PropertyInt_<decimal>`.
pub open spec fn property_int_name_spec(key: u32) -> Seq<char> {
    if key == 0x05 {
        "Age"@
    } else if key == 0x10 {
        "ArmorLevel"@
    } else if key == 0x11 {
        "Level"@
    } else if key == 0x6F {
        "Value"@
    } else {
        "PropertyInt_"@ + dec_chars(key as int)
    }
}

pub fn property_int_name(key: u32) -> (r: String)
    ensures
        r@ == property_int_name_spec(key),
{
    match key {
        0x05 => String::from_str("Age"),
        0x10 => String::from_str("ArmorLevel"),
        0x11 => String::from_str("Level"),
        0x6F => String::from_str("Value"),
        _ => {
            let mut s = String::from_str("PropertyInt_");
            let d = dec_string(key);
            s.append(d.as_str());
            s
        },
    }
}

/// The symbolic name of a vital key; unknown keys format as
/// `Vital_<decimal>`.
pub open spec fn vital_name_spec(key: u32) -> Seq<char> {
    if key == 1 {
        "Health"@
    } else if key == 2 {
        "Stamina"@
    } else if key == 3 {
        "Mana"@
    } else {
        "Vital_"@ + dec_chars(key as int)
    }
}

pub fn vital_name(key: u32) -> (r: String)
    ensures
        r@ == vital_name_spec(key),
{
    match key {
        1 => String::from_str("Health"),
        2 => String::from_str("Stamina"),
        3 => String::from_str("Mana"),
        _ => {
            let mut s = String::from_str("Vital_");
            let d = dec_string(key);
            s.append(d.as_str());
            s
        },
    }
}

/// The symbolic name of an instance-id property key; unknown keys format
/// as `PropertyInstanceId_<decimal>`.
pub open spec fn property_instance_id_name_spec(key: u32) -> Seq<char> {
    if key == 1 {
        "Owner"@
    } else if key == 2 {
        "Container"@
    } else if key == 3 {
        "Wielder"@
    } else {
        "PropertyInstanceId_"@ + dec_chars(key as int)
    }
}

pub fn property_instance_id_name(key: u32) -> (r: String)
    ensures
        r@ == property_instance_id_name_spec(key),
{
    match key {
        1 => String::from_str("Owner"),
        2 => String::from_str("Container"),
        3 => String::from_str("Wielder"),
        _ => {
            let mut s = String::from_str("PropertyInstanceId_");
            let d = dec_string(key);
            s.append(d.as_str());
            s
        },
    }
}

/// The name of a movement-type code.
pub open spec fn movement_type_name_spec(t: u8) -> Seq<char> {
    if t == 0 {
        "Invalid"@
    } else if t == 1 {
        "General"@
    } else if t == 2 {
        "RawCommand"@
    } else if t == 3 {
        "InterpertedMotionState"@
    } else if t == 4 {
        "StopCompletely"@
    } else if t == 5 {
        "MoveToObject"@
    } else if t == 6 {
        "MoveToPosition"@
    } else if t == 7 {
        "TurnToObject"@
    } else if t == 8 {
        "TurnToHeading"@
    } else if t == 9 {
        "Jump"@
    } else {
        "Unknown"@
    }
}

fn movement_type_name(t: u8) -> (r: String)
    ensures
        r@ == movement_type_name_spec(t),
{
    match t {
        0 => String::from_str("Invalid"),
        1 => String::from_str("General"),
        2 => String::from_str("RawCommand"),
        3 => String::from_str("InterpertedMotionState"),
        4 => String::from_str("StopCompletely"),
        5 => String::from_str("MoveToObject"),
        6 => String::from_str("MoveToPosition"),
        7 => String::from_str("TurnToObject"),
        8 => String::from_str("TurnToHeading"),
        9 => String::from_str("Jump"),
        _ => String::from_str("Unknown"),
    }
}

/// The name of a chat-type code.
pub open spec fn chat_type_name_spec(t: u32) -> Seq<char> {
    if t == 0 {
        "Default"@
    } else if t == 1 {
        "System"@
    } else if t == 5 {
        "Magic"@
    } else {
        "Unknown"@
    }
}

fn chat_type_name(t: u32) -> (r: String)
    ensures
        r@ == chat_type_name_spec(t),
{
    match t {
        0 => String::from_str("Default"),
        1 => String::from_str("System"),
        5 => String::from_str("Magic"),
        _ => String::from_str("Unknown"),
    }
}

/// `Qualities_PrivateUpdateInt`: an integer property update on the
/// local-player entity.
#[derive(Debug, Clone)]
pub struct QualitiesPrivateUpdateInt {
    pub sequence: u8,
    pub key: String,
    pub key_raw: u32,
    pub value: i32,
    pub opcode: u32,
    pub message_type: String,
    pub message_direction: String,
}

/// `m` holds exactly the fields decoded from `d` at offset `p`.
pub open spec fn private_update_int_matches(m: QualitiesPrivateUpdateInt, d: Seq<u8>, p: int) -> bool {
    &&& m.sequence == d[p]
    &&& m.key_raw == le32(d, p + 1)
    &&& m.key@ == property_int_name_spec(le32(d, p + 1))
    &&& m.value == le32(d, p + 5) as i32
    &&& m.opcode == 0x02CD
    &&& m.message_type@ == "Qualities_PrivateUpdateInt"@
    &&& m.message_direction@ == "ServerToClient"@
}

impl QualitiesPrivateUpdateInt {
    /// Body: `seq(u8) | key(u32) | value(i32)`, 9 bytes.
    pub fn read(reader: &mut BinaryReader) -> (r: Result<Self, ReadError>)
        requires
            old(reader).wf(),
        ensures
            final(reader).wf(),
            final(reader).data() == old(reader).data(),
            old(reader).remaining_spec() >= 9 ==> {
                &&& r is Ok
                &&& private_update_int_matches(r->Ok_0, old(reader).data(), old(reader).pos())
                &&& final(reader).pos() == old(reader).pos() + 9
            },
            old(reader).remaining_spec() < 9 ==> r is Err,
    {
        let sequence = match reader.read_u8() {
            Ok(v) => v,
            Err(e) => { return Err(e); },
        };
        let key_raw = match reader.read_u32() {
            Ok(v) => v,
            Err(e) => { return Err(e); },
        };
        let value = match reader.read_i32() {
            Ok(v) => v,
            Err(e) => { return Err(e); },
        };
        Ok(
            QualitiesPrivateUpdateInt {
                sequence,
                key: property_int_name(key_raw),
                key_raw,
                value,
                opcode: 0x02CD,
                message_type: String::from_str("Qualities_PrivateUpdateInt"),
                message_direction: String::from_str("ServerToClient"),
            },
        )
    }
}

/// `Qualities_PrivateUpdateAttribute2ndLevel`: a vital level update on
/// the local-player entity.
#[derive(Debug, Clone)]
pub struct QualitiesPrivateUpdateAttribute2ndLevel {
    pub sequence: u8,
    pub key: String,
    pub key_raw: u32,
    pub value: u32,
    pub opcode: u32,
    pub message_type: String,
    pub message_direction: String,
}

/// `m` holds exactly the fields decoded from `d` at offset `p`.
pub open spec fn private_update_attribute_matches(
    m: QualitiesPrivateUpdateAttribute2ndLevel,
    d: Seq<u8>,
    p: int,
) -> bool {
    &&& m.sequence == d[p]
    &&& m.key_raw == le32(d, p + 1)
    &&& m.key@ == vital_name_spec(le32(d, p + 1))
    &&& m.value == le32(d, p + 5)
    &&& m.opcode == 0x02E9
    &&& m.message_type@ == "Qualities_PrivateUpdateAttribute2ndLevel"@
    &&& m.message_direction@ == "ServerToClient"@
}

impl QualitiesPrivateUpdateAttribute2ndLevel {
    /// Body: `seq(u8) | key(u32) | value(u32)`, 9 bytes.
    pub fn read(reader: &mut BinaryReader) -> (r: Result<Self, ReadError>)
        requires
            old(reader).wf(),
        ensures
            final(reader).wf(),
            final(reader).data() == old(reader).data(),
            old(reader).remaining_spec() >= 9 ==> {
                &&& r is Ok
                &&& private_update_attribute_matches(
                    r->Ok_0,
                    old(reader).data(),
                    old(reader).pos(),
                )
                &&& final(reader).pos() == old(reader).pos() + 9
            },
            old(reader).remaining_spec() < 9 ==> r is Err,
    {
        let sequence = match reader.read_u8() {
            Ok(v) => v,
            Err(e) => { return Err(e); },
        };
        let key_raw = match reader.read_u32() {
            Ok(v) => v,
            Err(e) => { return Err(e); },
        };
        let value = match reader.read_u32() {
            Ok(v) => v,
            Err(e) => { return Err(e); },
        };
        Ok(
            QualitiesPrivateUpdateAttribute2ndLevel {
                sequence,
                key: vital_name(key_raw),
                key_raw,
                value,
                opcode: 0x02E9,
                message_type: String::from_str("Qualities_PrivateUpdateAttribute2ndLevel"),
                message_direction: String::from_str("ServerToClient"),
            },
        )
    }
}

/// `Qualities_UpdateInt`: an integer property update on an entity.
#[derive(Debug, Clone)]
pub struct QualitiesUpdateInt {
    pub sequence: u8,
    pub object_id: u32,
    pub key: String,
    pub key_raw: u32,
    pub value: i32,
    pub opcode: u32,
    pub message_type: String,
    pub message_direction: String,
}

/// `m` holds exactly the fields decoded from `d` at offset `p`.
pub open spec fn update_int_matches(m: QualitiesUpdateInt, d: Seq<u8>, p: int) -> bool {
    &&& m.sequence == d[p]
    &&& m.object_id == le32(d, p + 1)
    &&& m.key_raw == le32(d, p + 5)
    &&& m.key@ == property_int_name_spec(le32(d, p + 5))
    &&& m.value == le32(d, p + 9) as i32
    &&& m.opcode == 0x02CE
    &&& m.message_type@ == "Qualities_UpdateInt"@
    &&& m.message_direction@ == "ServerToClient"@
}

impl QualitiesUpdateInt {
    /// Body: `seq(u8) | object_id(u32) | key(u32) | value(i32)`, 13
    /// bytes.
    pub fn read(reader: &mut BinaryReader) -> (r: Result<Self, ReadError>)
        requires
            old(reader).wf(),
        ensures
            final(reader).wf(),
            final(reader).data() == old(reader).data(),
            old(reader).remaining_spec() >= 13 ==> {
                &&& r is Ok
                &&& update_int_matches(r->Ok_0, old(reader).data(), old(reader).pos())
                &&& final(reader).pos() == old(reader).pos() + 13
            },
            old(reader).remaining_spec() < 13 ==> r is Err,
    {
        let sequence = match reader.read_u8() {
            Ok(v) => v,
            Err(e) => { return Err(e); },
        };
        let object_id = match reader.read_u32() {
            Ok(v) => v,
            Err(e) => { return Err(e); },
        };
        let key_raw = match reader.read_u32() {
            Ok(v) => v,
            Err(e) => { return Err(e); },
        };
        let value = match reader.read_i32() {
            Ok(v) => v,
            Err(e) => { return Err(e); },
        };
        Ok(
            QualitiesUpdateInt {
                sequence,
                object_id,
                key: property_int_name(key_raw),
                key_raw,
                value,
                opcode: 0x02CE,
                message_type: String::from_str("Qualities_UpdateInt"),
                message_direction: String::from_str("ServerToClient"),
            },
        )
    }
}

/// `Qualities_UpdateInstanceId`: an instance-id property update on an
/// entity.
#[derive(Debug, Clone)]
pub struct QualitiesUpdateInstanceId {
    pub sequence: u8,
    pub object_id: u32,
    pub key: String,
    pub key_raw: u32,
    pub value: u32,
    pub opcode: u32,
    pub message_type: String,
    pub message_direction: String,
}

/// `m` holds exactly the fields decoded from `d` at offset `p`.
pub open spec fn update_instance_id_matches(m: QualitiesUpdateInstanceId, d: Seq<u8>, p: int) -> bool {
    &&& m.sequence == d[p]
    &&& m.object_id == le32(d, p + 1)
    &&& m.key_raw == le32(d, p + 5)
    &&& m.key@ == property_instance_id_name_spec(le32(d, p + 5))
    &&& m.value == le32(d, p + 9)
    &&& m.opcode == 0x02DA
    &&& m.message_type@ == "Qualities_UpdateInstanceId"@
    &&& m.message_direction@ == "ServerToClient"@
}

impl QualitiesUpdateInstanceId {
    /// Body: `seq(u8) | object_id(u32) | key(u32) | value(u32)`, 13
    /// bytes.
    pub fn read(reader: &mut BinaryReader) -> (r: Result<Self, ReadError>)
        requires
            old(reader).wf(),
        ensures
            final(reader).wf(),
            final(reader).data() == old(reader).data(),
            old(reader).remaining_spec() >= 13 ==> {
                &&& r is Ok
                &&& update_instance_id_matches(r->Ok_0, old(reader).data(), old(reader).pos())
                &&& final(reader).pos() == old(reader).pos() + 13
            },
            old(reader).remaining_spec() < 13 ==> r is Err,
    {
        let sequence = match reader.read_u8() {
            Ok(v) => v,
            Err(e) => { return Err(e); },
        };
        let object_id = match reader.read_u32() {
            Ok(v) => v,
            Err(e) => { return Err(e); },
        };
        let key_raw = match reader.read_u32() {
            Ok(v) => v,
            Err(e) => { return Err(e); },
        };
        let value = match reader.read_u32() {
            Ok(v) => v,
            Err(e) => { return Err(e); },
        };
        Ok(
            QualitiesUpdateInstanceId {
                sequence,
                object_id,
                key: property_instance_id_name(key_raw),
                key_raw,
                value,
                opcode: 0x02DA,
                message_type: String::from_str("Qualities_UpdateInstanceId"),
                message_direction: String::from_str("ServerToClient"),
            },
        )
    }
}

/// The movement summary embedded in `Movement_SetObjectMovement`; the
/// detailed motion payload past these six bytes is deferred and kept by
/// the enclosing message as trailing bytes.
#[derive(Debug, Clone)]
pub struct MovementData {
    pub object_movement_sequence: u16,
    pub object_server_control_sequence: u16,
    pub autonomous: u8,
    pub movement_type: String,
}

/// `m` holds exactly the fields decoded from `d` at offset `p`.
pub open spec fn movement_data_matches(m: MovementData, d: Seq<u8>, p: int) -> bool {
    &&& m.object_movement_sequence == le16(d, p)
    &&& m.object_server_control_sequence == le16(d, p + 2)
    &&& m.autonomous == d[p + 4]
    &&& m.movement_type@ == movement_type_name_spec(d[p + 5])
}

impl MovementData {
    /// Body: `movement_seq(u16) | server_control_seq(u16) |
    /// autonomous(u8) | movement_type(u8)`, 6 bytes.
    pub fn read(reader: &mut BinaryReader) -> (r: Result<Self, ReadError>)
        requires
            old(reader).wf(),
        ensures
            final(reader).wf(),
            final(reader).data() == old(reader).data(),
            old(reader).remaining_spec() >= 6 ==> {
                &&& r is Ok
                &&& movement_data_matches(r->Ok_0, old(reader).data(), old(reader).pos())
                &&& final(reader).pos() == old(reader).pos() + 6
            },
            old(reader).remaining_spec() < 6 ==> r is Err,
    {
        let object_movement_sequence = match reader.read_u16() {
            Ok(v) => v,
            Err(e) => { return Err(e); },
        };
        let object_server_control_sequence = match reader.read_u16() {
            Ok(v) => v,
            Err(e) => { return Err(e); },
        };
        let autonomous = match reader.read_u8() {
            Ok(v) => v,
            Err(e) => { return Err(e); },
        };
        let movement_type_raw = match reader.read_u8() {
            Ok(v) => v,
            Err(e) => { return Err(e); },
        };
        Ok(
            MovementData {
                object_movement_sequence,
                object_server_control_sequence,
                autonomous,
                movement_type: movement_type_name(movement_type_raw),
            },
        )
    }
}

/// `Movement_SetObjectMovement`: a movement state change for an entity.
#[derive(Debug, Clone)]
pub struct MovementSetObjectMovement {
    pub object_id: u32,
    pub object_instance_sequence: u16,
    pub movement_data: MovementData,
    pub opcode: u32,
    pub message_type: String,
    pub message_direction: String,
}

/// `m` holds exactly the fields decoded from `d` at offset `p`.
pub open spec fn set_object_movement_matches(m: MovementSetObjectMovement, d: Seq<u8>, p: int) -> bool {
    &&& m.object_id == le32(d, p)
    &&& m.object_instance_sequence == le16(d, p + 4)
    &&& movement_data_matches(m.movement_data, d, p + 6)
    &&& m.opcode == 0xF74C
    &&& m.message_type@ == "Movement_SetObjectMovement"@
    &&& m.message_direction@ == "ServerToClient"@
}

impl MovementSetObjectMovement {
    /// Body: `object_id(u32) | instance_seq(u16) | movement_data`, 12
    /// bytes.
    pub fn read(reader: &mut BinaryReader) -> (r: Result<Self, ReadError>)
        requires
            old(reader).wf(),
        ensures
            final(reader).wf(),
            final(reader).data() == old(reader).data(),
            old(reader).remaining_spec() >= 12 ==> {
                &&& r is Ok
                &&& set_object_movement_matches(r->Ok_0, old(reader).data(), old(reader).pos())
                &&& final(reader).pos() == old(reader).pos() + 12
            },
            old(reader).remaining_spec() < 12 ==> r is Err,
    {
        let object_id = match reader.read_u32() {
            Ok(v) => v,
            Err(e) => { return Err(e); },
        };
        let object_instance_sequence = match reader.read_u16() {
            Ok(v) => v,
            Err(e) => { return Err(e); },
        };
        let movement_data = match MovementData::read(reader) {
            Ok(v) => v,
            Err(e) => { return Err(e); },
        };
        Ok(
            MovementSetObjectMovement {
                object_id,
                object_instance_sequence,
                movement_data,
                opcode: 0xF74C,
                message_type: String::from_str("Movement_SetObjectMovement"),
                message_direction: String::from_str("ServerToClient"),
            },
        )
    }
}

/// `Inventory_PickupEvent`: an entity was picked up.
#[derive(Debug, Clone)]
pub struct InventoryPickupEvent {
    pub object_id: u32,
    pub object_instance_sequence: u16,
    pub object_position_sequence: u16,
    pub opcode: u32,
    pub message_type: String,
    pub message_direction: String,
}

/// `m` holds exactly the fields decoded from `d` at offset `p`.
pub open spec fn pickup_event_matches(m: InventoryPickupEvent, d: Seq<u8>, p: int) -> bool {
    &&& m.object_id == le32(d, p)
    &&& m.object_instance_sequence == le16(d, p + 4)
    &&& m.object_position_sequence == le16(d, p + 6)
    &&& m.opcode == 0xF74A
    &&& m.message_type@ == "Inventory_PickupEvent"@
    &&& m.message_direction@ == "ServerToClient"@
}

impl InventoryPickupEvent {
    /// Body: `object_id(u32) | instance_seq(u16) | position_seq(u16)`, 8
    /// bytes.
    pub fn read(reader: &mut BinaryReader) -> (r: Result<Self, ReadError>)
        requires
            old(reader).wf(),
        ensures
            final(reader).wf(),
            final(reader).data() == old(reader).data(),
            old(reader).remaining_spec() >= 8 ==> {
                &&& r is Ok
                &&& pickup_event_matches(r->Ok_0, old(reader).data(), old(reader).pos())
                &&& final(reader).pos() == old(reader).pos() + 8
            },
            old(reader).remaining_spec() < 8 ==> r is Err,
    {
        let object_id = match reader.read_u32() {
            Ok(v) => v,
            Err(e) => { return Err(e); },
        };
        let object_instance_sequence = match reader.read_u16() {
            Ok(v) => v,
            Err(e) => { return Err(e); },
        };
        let object_position_sequence = match reader.read_u16() {
            Ok(v) => v,
            Err(e) => { return Err(e); },
        };
        Ok(
            InventoryPickupEvent {
                object_id,
                object_instance_sequence,
                object_position_sequence,
                opcode: 0xF74A,
                message_type: String::from_str("Inventory_PickupEvent"),
                message_direction: String::from_str("ServerToClient"),
            },
        )
    }
}

/// `Effects_SoundEvent`: a sound played on an entity. The volume is a
/// 4-byte float on the wire; its raw bits are kept.
#[derive(Debug, Clone)]
pub struct EffectsSoundEvent {
    pub object_id: u32,
    pub sound_type: u32,
    pub volume_bits: u32,
    pub opcode: u32,
    pub message_type: String,
    pub message_direction: String,
}

/// `m` holds exactly the fields decoded from `d` at offset `p`.
pub open spec fn sound_event_matches(m: EffectsSoundEvent, d: Seq<u8>, p: int) -> bool {
    &&& m.object_id == le32(d, p)
    &&& m.sound_type == le32(d, p + 4)
    &&& m.volume_bits == le32(d, p + 8)
    &&& m.opcode == 0xF750
    &&& m.message_type@ == "Effects_SoundEvent"@
    &&& m.message_direction@ == "ServerToClient"@
}

impl EffectsSoundEvent {
    /// Body: `object_id(u32) | sound_type(u32) | volume(f32)`, 12 bytes.
    pub fn read(reader: &mut BinaryReader) -> (r: Result<Self, ReadError>)
        requires
            old(reader).wf(),
        ensures
            final(reader).wf(),
            final(reader).data() == old(reader).data(),
            old(reader).remaining_spec() >= 12 ==> {
                &&& r is Ok
                &&& sound_event_matches(r->Ok_0, old(reader).data(), old(reader).pos())
                &&& final(reader).pos() == old(reader).pos() + 12
            },
            old(reader).remaining_spec() < 12 ==> r is Err,
    {
        let object_id = match reader.read_u32() {
            Ok(v) => v,
            Err(e) => { return Err(e); },
        };
        let sound_type = match reader.read_u32() {
            Ok(v) => v,
            Err(e) => { return Err(e); },
        };
        let volume_bits = match reader.read_f32_bits() {
            Ok(v) => v,
            Err(e) => { return Err(e); },
        };
        Ok(
            EffectsSoundEvent {
                object_id,
                sound_type,
                volume_bits,
                opcode: 0xF750,
                message_type: String::from_str("Effects_SoundEvent"),
                message_direction: String::from_str("ServerToClient"),
            },
        )
    }
}

/// `Effects_PlayScriptType`: a visual script played on an entity. The
/// speed is a 4-byte float on the wire; its raw bits are kept.
#[derive(Debug, Clone)]
pub struct EffectsPlayScriptType {
    pub object_id: u32,
    pub script_type: u32,
    pub speed_bits: u32,
    pub opcode: u32,
    pub message_type: String,
    pub message_direction: String,
}

/// `m` holds exactly the fields decoded from `d` at offset `p`.
pub open spec fn play_script_type_matches(m: EffectsPlayScriptType, d: Seq<u8>, p: int) -> bool {
    &&& m.object_id == le32(d, p)
    &&& m.script_type == le32(d, p + 4)
    &&& m.speed_bits == le32(d, p + 8)
    &&& m.opcode == 0xF755
    &&& m.message_type@ == "Effects_PlayScriptType"@
    &&& m.message_direction@ == "ServerToClient"@
}

impl EffectsPlayScriptType {
    /// Body: `object_id(u32) | script_type(u32) | speed(f32)`, 12 bytes.
    pub fn read(reader: &mut BinaryReader) -> (r: Result<Self, ReadError>)
        requires
            old(reader).wf(),
        ensures
            final(reader).wf(),
            final(reader).data() == old(reader).data(),
            old(reader).remaining_spec() >= 12 ==> {
                &&& r is Ok
                &&& play_script_type_matches(r->Ok_0, old(reader).data(), old(reader).pos())
                &&& final(reader).pos() == old(reader).pos() + 12
            },
            old(reader).remaining_spec() < 12 ==> r is Err,
    {
        let object_id = match reader.read_u32() {
            Ok(v) => v,
            Err(e) => { return Err(e); },
        };
        let script_type = match reader.read_u32() {
            Ok(v) => v,
            Err(e) => { return Err(e); },
        };
        let speed_bits = match reader.read_f32_bits() {
            Ok(v) => v,
            Err(e) => { return Err(e); },
        };
        Ok(
            EffectsPlayScriptType {
                object_id,
                script_type,
                speed_bits,
                opcode: 0xF755,
                message_type: String::from_str("Effects_PlayScriptType"),
                message_direction: String::from_str("ServerToClient"),
            },
        )
    }
}

/// The text body decodes: length prefix present, enough bytes, ASCII
/// text, and room for the padding and the chat-type word after it.
pub open spec fn textbox_ok(d: Seq<u8>, p: int) -> bool {
    let len = le16(d, p) as int;
    &&& d.len() - p >= 2
    &&& d.len() - p >= 2 + len
    &&& ascii_ok(d.subrange(p + 2, p + 2 + len))
    &&& round_up4(p + 2 + len) + 4 <= d.len()
}

/// The offset just past the string padding and the chat-type word.
pub open spec fn textbox_end(d: Seq<u8>, p: int) -> int {
    round_up4(p + 2 + le16(d, p)) + 4
}

/// `Communication_TextboxString`: a line of chat text.
#[derive(Debug, Clone)]
pub struct CommunicationTextboxString {
    pub text: String,
    pub chat_type: String,
    pub chat_type_raw: u32,
    pub opcode: u32,
    pub message_type: String,
    pub message_direction: String,
}

/// `m` holds exactly the fields decoded from `d` at offset `p`.
pub open spec fn textbox_string_matches(m: CommunicationTextboxString, d: Seq<u8>, p: int) -> bool {
    let len = le16(d, p) as int;
    let t = le32(d, round_up4(p + 2 + len));
    &&& m.text@ == ascii_chars(d.subrange(p + 2, p + 2 + len))
    &&& m.chat_type_raw == t
    &&& m.chat_type@ == chat_type_name_spec(t)
    &&& m.opcode == 0xF7E0
    &&& m.message_type@ == "Communication_TextboxString"@
    &&& m.message_direction@ == "ServerToClient"@
}

impl CommunicationTextboxString {
    /// Body: `text(string16l) | chat_type(u32)`.
    pub fn read(reader: &mut BinaryReader) -> (r: Result<Self, ReadError>)
        requires
            old(reader).wf(),
        ensures
            final(reader).wf(),
            final(reader).data() == old(reader).data(),
            textbox_ok(old(reader).data(), old(reader).pos()) ==> {
                &&& r is Ok
                &&& textbox_string_matches(r->Ok_0, old(reader).data(), old(reader).pos())
                &&& final(reader).pos() == textbox_end(old(reader).data(), old(reader).pos())
            },
            !textbox_ok(old(reader).data(), old(reader).pos()) ==> r is Err,
    {
        let text = match reader.read_string16l() {
            Ok(v) => v,
            Err(e) => { return Err(e); },
        };
        let chat_type_raw = match reader.read_u32() {
            Ok(v) => v,
            Err(e) => { return Err(e); },
        };
        Ok(
            CommunicationTextboxString {
                text,
                chat_type: chat_type_name(chat_type_raw),
                chat_type_raw,
                opcode: 0xF7E0,
                message_type: String::from_str("Communication_TextboxString"),
                message_direction: String::from_str("ServerToClient"),
            },
        )
    }
}

/// `Item_ObjDescEvent`: an entity's visual description changed. The
/// description body is deferred: it is skipped, and the two sequence
/// words at the very end of the payload are read.
#[derive(Debug, Clone)]
pub struct ItemObjDescEvent {
    pub object_id: u32,
    pub instance_sequence: u16,
    pub visual_desc_sequence: u16,
    pub opcode: u32,
    pub message_type: String,
    pub message_direction: String,
}

/// `m` holds exactly the fields decoded from `d` at offset `p`: the
/// sequences come from the last four bytes when the skipped description
/// leaves room, else from what can still be read, missing words being
/// zero.
pub open spec fn obj_desc_event_matches(m: ItemObjDescEvent, d: Seq<u8>, p: int) -> bool {
    let rem2 = d.len() - (p + 4);
    &&& m.object_id == le32(d, p)
    &&& if rem2 >= 4 {
        m.instance_sequence == le16(d, d.len() - 4) && m.visual_desc_sequence == le16(
            d,
            d.len() - 2,
        )
    } else if rem2 >= 2 {
        m.instance_sequence == le16(d, p + 4) && m.visual_desc_sequence == 0
    } else {
        m.instance_sequence == 0 && m.visual_desc_sequence == 0
    }
    &&& m.opcode == 0xF625
    &&& m.message_type@ == "Item_ObjDescEvent"@
    &&& m.message_direction@ == "ServerToClient"@
}

/// Where [`ItemObjDescEvent::read`] leaves the cursor.
pub open spec fn obj_desc_event_end(d: Seq<u8>, p: int) -> int {
    let rem2 = d.len() - (p + 4);
    if rem2 >= 4 {
        d.len() as int
    } else if rem2 >= 2 {
        p + 6
    } else {
        p + 4
    }
}

impl ItemObjDescEvent {
    /// Body: `object_id(u32) | deferred description | instance_seq(u16) |
    /// visual_desc_seq(u16)`.
    pub fn read(reader: &mut BinaryReader) -> (r: Result<Self, ReadError>)
        requires
            old(reader).wf(),
        ensures
            final(reader).wf(),
            final(reader).data() == old(reader).data(),
            old(reader).remaining_spec() >= 4 ==> {
                &&& r is Ok
                &&& obj_desc_event_matches(r->Ok_0, old(reader).data(), old(reader).pos())
                &&& final(reader).pos() == obj_desc_event_end(
                    old(reader).data(),
                    old(reader).pos(),
                )
            },
            old(reader).remaining_spec() < 4 ==> r is Err,
    {
        let object_id = match reader.read_u32() {
            Ok(v) => v,
            Err(e) => { return Err(e); },
        };
        let remaining = reader.remaining();
        if remaining >= 4 {
            match reader.read_bytes(remaining - 4) {
                Ok(_) => (),
                Err(e) => { return Err(e); },
            };
        }
        let instance_sequence = match reader.read_u16() {
            Ok(v) => v,
            Err(_) => 0,
        };
        let visual_desc_sequence = match reader.read_u16() {
            Ok(v) => v,
            Err(_) => 0,
        };
        Ok(
            ItemObjDescEvent {
                object_id,
                instance_sequence,
                visual_desc_sequence,
                opcode: 0xF625,
                message_type: String::from_str("Item_ObjDescEvent"),
                message_direction: String::from_str("ServerToClient"),
            },
        )
    }
}

/// `Character_CharacterOptionsEvent`: the player's option flags. The
/// option body is deferred; the envelope identifiers are kept.
#[derive(Debug, Clone)]
pub struct CharacterCharacterOptionsEvent {
    pub ordered_object_id: u32,
    pub ordered_sequence: u32,
    pub event_type: String,
    pub opcode: u32,
    pub message_type: String,
    pub message_direction: String,
}

/// `m` carries the envelope identifiers and the fixed naming fields.
pub open spec fn character_options_matches(m: CharacterCharacterOptionsEvent, oid: u32, seq: u32) -> bool {
    &&& m.ordered_object_id == oid
    &&& m.ordered_sequence == seq
    &&& m.event_type@ == "Character_CharacterOptionsEvent"@
    &&& m.opcode == 0xF7B0
    &&& m.message_type@ == "Ordered_GameEvent"@
    &&& m.message_direction@ == "ServerToClient"@
}

impl CharacterCharacterOptionsEvent {
    /// Consumes nothing: the option body is deferred.
    pub fn read(_reader: &mut BinaryReader, ordered_object_id: u32, ordered_sequence: u32) -> (r:
        Result<Self, ReadError>)
        requires
            old(_reader).wf(),
        ensures
            *final(_reader) == *old(_reader),
            r is Ok,
            character_options_matches(r->Ok_0, ordered_object_id, ordered_sequence),
    {
        Ok(
            CharacterCharacterOptionsEvent {
                ordered_object_id,
                ordered_sequence,
                event_type: String::from_str("Character_CharacterOptionsEvent"),
                opcode: 0xF7B0,
                message_type: String::from_str("Ordered_GameEvent"),
                message_direction: String::from_str("ServerToClient"),
            },
        )
    }
}

/// `Item_WearItem`: an entity equipped an item.
#[derive(Debug, Clone)]
pub struct ItemWearItem {
    pub object_id: u32,
    pub location: u32,
    pub ordered_object_id: u32,
    pub ordered_sequence: u32,
    pub event_type: String,
    pub opcode: u32,
    pub message_type: String,
    pub message_direction: String,
}

/// `m` holds exactly the fields decoded from `d` at offset `p`.
pub open spec fn wear_item_matches(m: ItemWearItem, d: Seq<u8>, p: int, oid: u32, seq: u32) -> bool {
    &&& m.object_id == le32(d, p)
    &&& m.location == le32(d, p + 4)
    &&& m.ordered_object_id == oid
    &&& m.ordered_sequence == seq
    &&& m.event_type@ == "Item_WearItem"@
    &&& m.opcode == 0xF7B0
    &&& m.message_type@ == "Ordered_GameEvent"@
    &&& m.message_direction@ == "ServerToClient"@
}

impl ItemWearItem {
    /// Body: `object_id(u32) | location(u32)`, 8 bytes.
    pub fn read(reader: &mut BinaryReader, ordered_object_id: u32, ordered_sequence: u32) -> (r:
        Result<Self, ReadError>)
        requires
            old(reader).wf(),
        ensures
            final(reader).wf(),
            final(reader).data() == old(reader).data(),
            old(reader).remaining_spec() >= 8 ==> {
                &&& r is Ok
                &&& wear_item_matches(
                    r->Ok_0,
                    old(reader).data(),
                    old(reader).pos(),
                    ordered_object_id,
                    ordered_sequence,
                )
                &&& final(reader).pos() == old(reader).pos() + 8
            },
            old(reader).remaining_spec() < 8 ==> r is Err,
    {
        let object_id = match reader.read_u32() {
            Ok(v) => v,
            Err(e) => { return Err(e); },
        };
        let location = match reader.read_u32() {
            Ok(v) => v,
            Err(e) => { return Err(e); },
        };
        Ok(
            ItemWearItem {
                object_id,
                location,
                ordered_object_id,
                ordered_sequence,
                event_type: String::from_str("Item_WearItem"),
                opcode: 0xF7B0,
                message_type: String::from_str("Ordered_GameEvent"),
                message_direction: String::from_str("ServerToClient"),
            },
        )
    }
}

/// `Item_SetAppraiseInfo`: appraisal results for an entity. The property
/// dictionaries after the header are deferred.
#[derive(Debug, Clone)]
pub struct ItemSetAppraiseInfo {
    pub object_id: u32,
    pub flags: u32,
    pub success: bool,
    pub ordered_object_id: u32,
    pub ordered_sequence: u32,
    pub event_type: String,
    pub opcode: u32,
    pub message_type: String,
    pub message_direction: String,
}

/// `m` holds exactly the fields decoded from `d` at offset `p`.
pub open spec fn set_appraise_info_matches(m: ItemSetAppraiseInfo, d: Seq<u8>, p: int, oid: u32, seq: u32) -> bool {
    &&& m.object_id == le32(d, p)
    &&& m.flags == le32(d, p + 4)
    &&& m.success == (d[p + 8] != 0)
    &&& m.ordered_object_id == oid
    &&& m.ordered_sequence == seq
    &&& m.event_type@ == "Item_SetAppraiseInfo"@
    &&& m.opcode == 0xF7B0
    &&& m.message_type@ == "Ordered_GameEvent"@
    &&& m.message_direction@ == "ServerToClient"@
}

impl ItemSetAppraiseInfo {
    /// Body: `object_id(u32) | flags(u32) | success(bool)`, 9 bytes; the
    /// dictionaries after them are deferred.
    pub fn read(reader: &mut BinaryReader, ordered_object_id: u32, ordered_sequence: u32) -> (r:
        Result<Self, ReadError>)
        requires
            old(reader).wf(),
        ensures
            final(reader).wf(),
            final(reader).data() == old(reader).data(),
            old(reader).remaining_spec() >= 9 ==> {
                &&& r is Ok
                &&& set_appraise_info_matches(
                    r->Ok_0,
                    old(reader).data(),
                    old(reader).pos(),
                    ordered_object_id,
                    ordered_sequence,
                )
                &&& final(reader).pos() == old(reader).pos() + 9
            },
            old(reader).remaining_spec() < 9 ==> r is Err,
    {
        let object_id = match reader.read_u32() {
            Ok(v) => v,
            Err(e) => { return Err(e); },
        };
        let flags = match reader.read_u32() {
            Ok(v) => v,
            Err(e) => { return Err(e); },
        };
        let success = match reader.read_bool() {
            Ok(v) => v,
            Err(e) => { return Err(e); },
        };
        Ok(
            ItemSetAppraiseInfo {
                object_id,
                flags,
                success,
                ordered_object_id,
                ordered_sequence,
                event_type: String::from_str("Item_SetAppraiseInfo"),
                opcode: 0xF7B0,
                message_type: String::from_str("Ordered_GameEvent"),
                message_direction: String::from_str("ServerToClient"),
            },
        )
    }
}

/// A spell identifier together with its stacking layer.
#[derive(Debug, Clone, Copy, PartialEq, Eq, Structural)]
pub struct LayeredSpellId {
    pub id: u32,
    pub layer: u16,
}

/// `Magic_DispelEnchantment`: one enchantment layer was removed.
#[derive(Debug, Clone)]
pub struct MagicDispelEnchantment {
    pub spell_id: LayeredSpellId,
    pub ordered_object_id: u32,
    pub ordered_sequence: u32,
    pub event_type: String,
    pub opcode: u32,
    pub message_type: String,
    pub message_direction: String,
}

/// `m` holds exactly the fields decoded from `d` at offset `p`.
pub open spec fn dispel_enchantment_matches(m: MagicDispelEnchantment, d: Seq<u8>, p: int, oid: u32, seq: u32) -> bool {
    &&& m.spell_id.id == le16(d, p) as u32
    &&& m.spell_id.layer == le16(d, p + 2)
    &&& m.ordered_object_id == oid
    &&& m.ordered_sequence == seq
    &&& m.event_type@ == "Magic_DispelEnchantment"@
    &&& m.opcode == 0xF7B0
    &&& m.message_type@ == "Ordered_GameEvent"@
    &&& m.message_direction@ == "ServerToClient"@
}

impl MagicDispelEnchantment {
    /// Body: `spell_id(u16) | layer(u16)`, 4 bytes.
    pub fn read(reader: &mut BinaryReader, ordered_object_id: u32, ordered_sequence: u32) -> (r:
        Result<Self, ReadError>)
        requires
            old(reader).wf(),
        ensures
            final(reader).wf(),
            final(reader).data() == old(reader).data(),
            old(reader).remaining_spec() >= 4 ==> {
                &&& r is Ok
                &&& dispel_enchantment_matches(
                    r->Ok_0,
                    old(reader).data(),
                    old(reader).pos(),
                    ordered_object_id,
                    ordered_sequence,
                )
                &&& final(reader).pos() == old(reader).pos() + 4
            },
            old(reader).remaining_spec() < 4 ==> r is Err,
    {
        let spell_id = match reader.read_u16() {
            Ok(v) => v,
            Err(e) => { return Err(e); },
        };
        let layer = match reader.read_u16() {
            Ok(v) => v,
            Err(e) => { return Err(e); },
        };
        Ok(
            MagicDispelEnchantment {
                spell_id: LayeredSpellId { id: spell_id as u32, layer },
                ordered_object_id,
                ordered_sequence,
                event_type: String::from_str("Magic_DispelEnchantment"),
                opcode: 0xF7B0,
                message_type: String::from_str("Ordered_GameEvent"),
                message_direction: String::from_str("ServerToClient"),
            },
        )
    }
}

/// `Magic_UpdateEnchantment`: an enchantment layer was applied. The
/// enchantment body is deferred; the envelope identifiers are kept.
#[derive(Debug, Clone)]
pub struct MagicUpdateEnchantment {
    pub ordered_object_id: u32,
    pub ordered_sequence: u32,
    pub event_type: String,
    pub opcode: u32,
    pub message_type: String,
    pub message_direction: String,
}

/// `m` carries the envelope identifiers and the fixed naming fields.
pub open spec fn update_enchantment_matches(m: MagicUpdateEnchantment, oid: u32, seq: u32) -> bool {
    &&& m.ordered_object_id == oid
    &&& m.ordered_sequence == seq
    &&& m.event_type@ == "Magic_UpdateEnchantment"@
    &&& m.opcode == 0xF7B0
    &&& m.message_type@ == "Ordered_GameEvent"@
    &&& m.message_direction@ == "ServerToClient"@
}

impl MagicUpdateEnchantment {
    /// Consumes nothing: the enchantment body is deferred.
    pub fn read(_reader: &mut BinaryReader, ordered_object_id: u32, ordered_sequence: u32) -> (r:
        Result<Self, ReadError>)
        requires
            old(_reader).wf(),
        ensures
            *final(_reader) == *old(_reader),
            r is Ok,
            update_enchantment_matches(r->Ok_0, ordered_object_id, ordered_sequence),
    {
        Ok(
            MagicUpdateEnchantment {
                ordered_object_id,
                ordered_sequence,
                event_type: String::from_str("Magic_UpdateEnchantment"),
                opcode: 0xF7B0,
                message_type: String::from_str("Ordered_GameEvent"),
                message_direction: String::from_str("ServerToClient"),
            },
        )
    }
}

/// `Item_ServerSaysContainId`: an entity was placed in a container.
#[derive(Debug, Clone)]
pub struct ItemServerSaysContainId {
    pub object_id: u32,
    pub container_id: u32,
    pub slot_index: u32,
    pub container_type: u32,
    pub ordered_object_id: u32,
    pub ordered_sequence: u32,
    pub event_type: String,
    pub opcode: u32,
    pub message_type: String,
    pub message_direction: String,
}

/// `m` holds exactly the fields decoded from `d` at offset `p`.
pub open spec fn contain_id_matches(m: ItemServerSaysContainId, d: Seq<u8>, p: int, oid: u32, seq: u32) -> bool {
    &&& m.object_id == le32(d, p)
    &&& m.container_id == le32(d, p + 4)
    &&& m.slot_index == le32(d, p + 8)
    &&& m.container_type == le32(d, p + 12)
    &&& m.ordered_object_id == oid
    &&& m.ordered_sequence == seq
    &&& m.event_type@ == "Item_ServerSaysContainId"@
    &&& m.opcode == 0xF7B0
    &&& m.message_type@ == "Ordered_GameEvent"@
    &&& m.message_direction@ == "ServerToClient"@
}

impl ItemServerSaysContainId {
    /// Body: `object_id(u32) | container_id(u32) | slot_index(u32) |
    /// container_type(u32)`, 16 bytes.
    pub fn read(reader: &mut BinaryReader, ordered_object_id: u32, ordered_sequence: u32) -> (r:
        Result<Self, ReadError>)
        requires
            old(reader).wf(),
        ensures
            final(reader).wf(),
            final(reader).data() == old(reader).data(),
            old(reader).remaining_spec() >= 16 ==> {
                &&& r is Ok
                &&& contain_id_matches(
                    r->Ok_0,
                    old(reader).data(),
                    old(reader).pos(),
                    ordered_object_id,
                    ordered_sequence,
                )
                &&& final(reader).pos() == old(reader).pos() + 16
            },
            old(reader).remaining_spec() < 16 ==> r is Err,
    {
        let object_id = match reader.read_u32() {
            Ok(v) => v,
            Err(e) => { return Err(e); },
        };
        let container_id = match reader.read_u32() {
            Ok(v) => v,
            Err(e) => { return Err(e); },
        };
        let slot_index = match reader.read_u32() {
            Ok(v) => v,
            Err(e) => { return Err(e); },
        };
        let container_type = match reader.read_u32() {
            Ok(v) => v,
            Err(e) => { return Err(e); },
        };
        Ok(
            ItemServerSaysContainId {
                object_id,
                container_id,
                slot_index,
                container_type,
                ordered_object_id,
                ordered_sequence,
                event_type: String::from_str("Item_ServerSaysContainId"),
                opcode: 0xF7B0,
                message_type: String::from_str("Ordered_GameEvent"),
                message_direction: String::from_str("ServerToClient"),
            },
        )
    }
}

/// The decoded body of an ordered game event: one of the typed
/// sub-events, or the raw remainder for sub-events without a decoder.
#[derive(Debug, Clone)]
pub enum GameEventBody {
    CharacterOptions(CharacterCharacterOptionsEvent),
    SetAppraiseInfo(ItemSetAppraiseInfo),
    ServerSaysContainId(ItemServerSaysContainId),
    WearItem(ItemWearItem),
    UpdateEnchantment(MagicUpdateEnchantment),
    DispelEnchantment(MagicDispelEnchantment),
    Other {
        ordered_object_id: u32,
        ordered_sequence: u32,
        event_type_raw: u32,
        raw_data: Vec<u8>,
    },
}

impl GameEventBody {
    /// The raw remainder as lowercase hex; empty for typed sub-events.
    pub fn raw_data_hex(&self) -> (r: String)
        ensures
            ({
                match self {
                    GameEventBody::Other { raw_data, .. } => r@ == hex_lower_of(raw_data@),
                    _ => r@.len() == 0,
                }
            }),
    {
        match self {
            GameEventBody::Other { raw_data, .. } => hex_encode(raw_data.as_slice()),
            _ => String::new(),
        }
    }
}

/// The number of body bytes [`parse_game_event`] consumes from offset
/// `p` of `d` when it succeeds for the sub-event code `event_type`.
pub open spec fn game_event_consumed(d: Seq<u8>, p: int, event_type: u32) -> int {
    let et = game_event_type_from(event_type);
    if et == GameEventType::Character_CharacterOptionsEvent {
        0
    } else if et == GameEventType::Item_SetAppraiseInfo {
        9
    } else if et == GameEventType::Item_ServerSaysContainId {
        16
    } else if et == GameEventType::Item_WearItem {
        8
    } else if et == GameEventType::Magic_UpdateEnchantment {
        0
    } else if et == GameEventType::Magic_DispelEnchantment {
        4
    } else {
        d.len() - p
    }
}

/// The typed message name [`parse_game_event`] reports: the sub-event's
/// symbolic name, or `GameEvent_<hex>` for codes outside the table.
pub open spec fn game_event_result_name(event_type: u32) -> Seq<char> {
    let et = game_event_type_from(event_type);
    if et == GameEventType::Unknown {
        "GameEvent_"@ + hex04_chars(event_type as int)
    } else {
        game_event_name_spec(et)
    }
}

/// The parsed body agrees with `d` at offset `p` for sub-event code
/// `event_type` under envelope identifiers `oid` and `seq`.
pub open spec fn game_event_body_matches(
    b: GameEventBody,
    d: Seq<u8>,
    p: int,
    event_type: u32,
    oid: u32,
    seq: u32,
) -> bool {
    let et = game_event_type_from(event_type);
    if et == GameEventType::Character_CharacterOptionsEvent {
        b matches GameEventBody::CharacterOptions(m) && character_options_matches(m, oid, seq)
    } else if et == GameEventType::Item_SetAppraiseInfo {
        b matches GameEventBody::SetAppraiseInfo(m) && set_appraise_info_matches(m, d, p, oid, seq)
    } else if et == GameEventType::Item_ServerSaysContainId {
        b matches GameEventBody::ServerSaysContainId(m) && contain_id_matches(m, d, p, oid, seq)
    } else if et == GameEventType::Item_WearItem {
        b matches GameEventBody::WearItem(m) && wear_item_matches(m, d, p, oid, seq)
    } else if et == GameEventType::Magic_UpdateEnchantment {
        b matches GameEventBody::UpdateEnchantment(m) && update_enchantment_matches(m, oid, seq)
    } else if et == GameEventType::Magic_DispelEnchantment {
        b matches GameEventBody::DispelEnchantment(m) && dispel_enchantment_matches(m, d, p, oid, seq)
    } else {
        b matches GameEventBody::Other {
            ordered_object_id,
            ordered_sequence,
            event_type_raw,
            raw_data,
        } && ordered_object_id == oid && ordered_sequence == seq && event_type_raw == event_type
            && raw_data@ == d.subrange(p, d.len() as int)
    }
}

/// Dispatch an ordered game event on its sub-event code: typed decoders
/// for the known codes, the raw remainder for the rest.
pub fn parse_game_event(
    reader: &mut BinaryReader,
    object_id: u32,
    sequence: u32,
    event_type: u32,
) -> (r: Result<(String, GameEventBody), ReadError>)
    requires
        old(reader).wf(),
    ensures
        final(reader).wf(),
        final(reader).data() == old(reader).data(),
        old(reader).remaining_spec() >= game_event_consumed(
            old(reader).data(),
            old(reader).pos(),
            event_type,
        ) ==> {
            &&& r is Ok
            &&& r->Ok_0.0@ == game_event_result_name(event_type)
            &&& game_event_body_matches(
                r->Ok_0.1,
                old(reader).data(),
                old(reader).pos(),
                event_type,
                object_id,
                sequence,
            )
            &&& final(reader).pos() == old(reader).pos() + game_event_consumed(
                old(reader).data(),
                old(reader).pos(),
                event_type,
            )
        },
        old(reader).remaining_spec() < game_event_consumed(
            old(reader).data(),
            old(reader).pos(),
            event_type,
        ) ==> r is Err,
{
    let evt_type = GameEventType::from_u32(event_type);
    match evt_type {
        GameEventType::Character_CharacterOptionsEvent => {
            let msg = match CharacterCharacterOptionsEvent::read(reader, object_id, sequence) {
                Ok(v) => v,
                Err(e) => { return Err(e); },
            };
            Ok((String::from_str("Character_CharacterOptionsEvent"), GameEventBody::CharacterOptions(msg)))
        },
        GameEventType::Item_SetAppraiseInfo => {
            let msg = match ItemSetAppraiseInfo::read(reader, object_id, sequence) {
                Ok(v) => v,
                Err(e) => { return Err(e); },
            };
            Ok((String::from_str("Item_SetAppraiseInfo"), GameEventBody::SetAppraiseInfo(msg)))
        },
        GameEventType::Item_ServerSaysContainId => {
            let msg = match ItemServerSaysContainId::read(reader, object_id, sequence) {
                Ok(v) => v,
                Err(e) => { return Err(e); },
            };
            Ok((String::from_str("Item_ServerSaysContainId"), GameEventBody::ServerSaysContainId(msg)))
        },
        GameEventType::Item_WearItem => {
            let msg = match ItemWearItem::read(reader, object_id, sequence) {
                Ok(v) => v,
                Err(e) => { return Err(e); },
            };
            Ok((String::from_str("Item_WearItem"), GameEventBody::WearItem(msg)))
        },
        GameEventType::Magic_UpdateEnchantment => {
            let msg = match MagicUpdateEnchantment::read(reader, object_id, sequence) {
                Ok(v) => v,
                Err(e) => { return Err(e); },
            };
            Ok((String::from_str("Magic_UpdateEnchantment"), GameEventBody::UpdateEnchantment(msg)))
        },
        GameEventType::Magic_DispelEnchantment => {
            let msg = match MagicDispelEnchantment::read(reader, object_id, sequence) {
                Ok(v) => v,
                Err(e) => { return Err(e); },
            };
            Ok((String::from_str("Magic_DispelEnchantment"), GameEventBody::DispelEnchantment(msg)))
        },
        _ => {
            let event_name = if evt_type != GameEventType::Unknown {
                String::from_str(evt_type.name())
            } else {
                let mut n = String::from_str("GameEvent_");
                let h = hex04_string(event_type);
                n.append(h.as_str());
                n
            };
            let remaining = reader.remaining();
            let raw_data = match reader.read_bytes(remaining) {
                Ok(v) => v,
                Err(e) => { return Err(e); },
            };
            Ok(
                (
                    event_name,
                    GameEventBody::Other {
                        ordered_object_id: object_id,
                        ordered_sequence: sequence,
                        event_type_raw: event_type,
                        raw_data,
                    },
                ),
            )
        },
    }
}

/// The name [`parse_game_event`] reports for a sub-event code.
pub fn event_result_name(event_type: u32) -> (r: String)
    ensures
        r@ == game_event_result_name(event_type),
{
    let et = GameEventType::from_u32(event_type);
    if et != GameEventType::Unknown {
        String::from_str(et.name())
    } else {
        let mut n = String::from_str("GameEvent_");
        let h = hex04_string(event_type);
        n.append(h.as_str());
        n
    }
}

} // verus!
