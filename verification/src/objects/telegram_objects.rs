//! The objects of the Telegram Bot API that the bot's data model holds.

use vstd::prelude::*;

verus! {

#[derive(Clone, Debug, PartialEq)]
pub enum ChatMember {
    Owner(ChatMemberOwner),
    Administrator(ChatMemberAdministrator),
    Member(ChatMemberMember),
    Restricted(ChatMemberRestricted),
    Left(ChatMemberLeft),
    Banned(ChatMemberBanned),
}

#[derive(Clone, Debug, PartialEq)]
pub enum ChatType {
    Private,
    Group,
    Supergroup,
    Channel,
}

#[derive(Clone, Debug, PartialEq)]
pub enum MessageEntityType {
    Mention,
    Hashtag,
    Cashtag,
    BotCommand,
    Url,
    Email,
    PhoneNumber,
    Bold,
    Italic,
    Underline,
    Strikethrough,
    Code,
    Pre,
    TextLink,
    TextMention,
}

#[derive(Clone, Debug, PartialEq)]
pub enum PollType {
    Regular,
    Quiz,
}

#[derive(Clone, Debug, PartialEq)]
pub enum EncryptedPassportElementType {
    PersonalDetails,
    Passport,
    DriverLicense,
    IdentityCard,
    InternalPassport,
    Address,
    UtilityBill,
    BankStatement,
    RentalAgreement,
    PassportRegistration,
    TemporaryRegistration,
    PhoneNumber,
    Email,
}

#[derive(Clone, Debug, PartialEq)]
pub enum PassportElementErrorDataFieldType {
    PersonalDetails,
    Passport,
    DriverLicense,
    IdentityCard,
    InternalPassport,
    Address,
}

#[derive(Clone, Debug, PartialEq)]
pub enum PassportElementErrorFrontSideType {
    Passport,
    DriverLicense,
    IdentityCard,
    InternalPassport,
}

#[derive(Clone, Debug, PartialEq)]
pub enum PassportElementErrorReverseSideType {
    DriverLicense,
    IdentityCard,
}

#[derive(Clone, Debug, PartialEq)]
pub enum PassportElementErrorSelfieType {
    Passport,
    DriverLicense,
    IdentityCard,
    InternalPassport,
}

#[derive(Clone, Debug, PartialEq)]
pub enum PassportElementErrorFileType {
    UtilityBill,
    BankStatement,
    RentalAgreement,
    PassportRegistration,
    TemporaryRegistration,
}

#[derive(Clone, Debug, PartialEq)]
pub enum PassportElementErrorTranslationFileType {
    Passport,
    DriverLicense,
    IdentityCard,
    InternalPassport,
    UtilityBill,
    BankStatement,
    RentalAgreement,
    PassportRegistration,
    TemporaryRegistration,
}

#[derive(Clone, Debug, PartialEq)]
pub struct ChatMemberOwner {
    pub user: User,
    pub custom_title: Option<String>,
    pub is_anonymous: bool,
}

#[derive(Clone, Debug, PartialEq)]
pub struct ChatMemberAdministrator {
    pub user: User,
    pub can_be_edited: bool,
    pub custom_title: Option<String>,
    pub is_anonymous: bool,
    pub can_manage_chat: bool,
    pub can_post_messages: Option<bool>,
    pub can_edit_messages: Option<bool>,
    pub can_delete_messages: bool,
    pub can_manage_voice_chats: bool,
    pub can_restrict_members: bool,
    pub can_promote_members: bool,
    pub can_change_info: bool,
    pub can_invite_users: bool,
    pub can_pin_messages: Option<bool>,
}

#[derive(Clone, Debug, PartialEq)]
pub struct ChatMemberMember {
    pub user: User,
}

#[derive(Clone, Debug, PartialEq)]
pub struct ChatMemberRestricted {
    pub user: User,
    pub is_member: bool,
    pub can_change_info: bool,
    pub can_invite_users: bool,
    pub can_pin_messages: Option<bool>,
    pub can_send_messages: bool,
    pub can_send_media_messages: bool,
    pub can_send_polls: bool,
    pub can_send_other_messages: bool,
    pub can_add_web_page_previews: bool,
    pub until_date: u64,
}

#[derive(Clone, Debug, PartialEq)]
pub struct ChatMemberLeft {
    pub user: User,
}

#[derive(Clone, Debug, PartialEq)]
pub struct ChatMemberBanned {
    pub user: User,
    pub until_date: u64,
}

#[derive(Clone, Debug, PartialEq)]
pub struct VoiceChatStarted {}

#[derive(Clone, Debug, PartialEq)]
pub struct VoiceChatScheduled {
    pub start_date: u64,
}

#[derive(Clone, Debug, PartialEq)]
pub struct CallbackGame {}

#[derive(Clone, Debug, PartialEq)]
pub struct WebhookInfo {
    pub url: String,
    pub has_custom_certificate: bool,
    pub pending_update_count: u32,
    pub ip_address: Option<String>,
    pub last_error_date: Option<u64>,
    pub last_error_message: Option<String>,
    pub max_connections: Option<u16>,
    pub allowed_updates: Option<Vec<String>>,
}

#[derive(Clone, Debug, PartialEq)]
pub struct User {
    pub id: u64,
    pub is_bot: bool,
    pub first_name: String,
    pub last_name: Option<String>,
    pub username: Option<String>,
    pub language_code: Option<String>,
    pub can_join_groups: Option<bool>,
    pub can_read_all_group_messages: Option<bool>,
    pub supports_inline_queries: Option<bool>,
}

#[derive(Clone, Debug, PartialEq)]
pub struct SendMessage {
    pub chat_id: i64,
    pub text: String,
}

#[derive(Clone, Debug, PartialEq)]
pub struct MessageId {
    pub message_id: i32,
}

#[derive(Clone, Debug, PartialEq)]
pub struct MessageEntity {
    pub type_field: MessageEntityType,
    pub offset: u16,
    pub length: u16,
    pub url: Option<String>,
    pub user: Option<User>,
    pub language: Option<String>,
}

#[derive(Clone, Debug, PartialEq)]
pub struct PhotoSize {
    pub file_id: String,
    pub file_unique_id: String,
    pub width: u32,
    pub height: u32,
    pub file_size: Option<u32>,
}

#[derive(Clone, Debug, PartialEq)]
pub struct Animation {
    pub file_id: String,
    pub file_unique_id: String,
    pub width: u32,
    pub height: u32,
    pub duration: u32,
    pub thumb: Option<PhotoSize>,
    pub file_name: Option<String>,
    pub mime_type: Option<String>,
    pub file_size: Option<u32>,
}

#[derive(Clone, Debug, PartialEq)]
pub struct Audio {
    pub file_id: String,
    pub file_unique_id: String,
    pub duration: u32,
    pub performer: Option<String>,
    pub title: Option<String>,
    pub file_name: Option<String>,
    pub mime_type: Option<String>,
    pub file_size: Option<u32>,
    pub thumb: Option<PhotoSize>,
}

#[derive(Clone, Debug, PartialEq)]
pub struct Document {
    pub file_id: String,
    pub file_unique_id: String,
    pub thumb: Option<PhotoSize>,
    pub file_name: Option<String>,
    pub mime_type: Option<String>,
    pub file_size: Option<u32>,
}

#[derive(Clone, Debug, PartialEq)]
pub struct Video {
    pub file_id: String,
    pub file_unique_id: String,
    pub width: u32,
    pub height: u32,
    pub duration: u32,
    pub thumb: Option<PhotoSize>,
    pub file_name: Option<String>,
    pub mime_type: Option<String>,
    pub file_size: Option<u32>,
}

#[derive(Clone, Debug, PartialEq)]
pub struct VideoNote {
    pub file_id: String,
    pub file_unique_id: String,
    pub length: u32,
    pub duration: u32,
    pub thumb: Option<PhotoSize>,
    pub file_size: Option<u32>,
}

#[derive(Clone, Debug, PartialEq)]
pub struct Voice {
    pub file_id: String,
    pub file_unique_id: String,
    pub duration: u32,
    pub mime_type: Option<String>,
    pub file_size: Option<u32>,
}

#[derive(Clone, Debug, PartialEq)]
pub struct Contact {
    pub phone_number: String,
    pub first_name: String,
    pub last_name: Option<String>,
    pub user_id: Option<u64>,
    pub vcard: Option<String>,
}

#[derive(Clone, Debug, PartialEq)]
pub struct Dice {
    pub emoji: String,
    pub value: u8,
}

#[derive(Clone, Debug, PartialEq)]
pub struct PollOption {
    pub text: String,
    pub voter_count: u32,
}

#[derive(Clone, Debug, PartialEq)]
pub struct PollAnswer {
    pub poll_id: String,
    pub user: User,
    pub option_ids: Vec<u8>,
}

#[derive(Clone, Debug, PartialEq)]
pub struct Poll {
    pub id: String,
    pub question: String,
    pub options: Vec<PollOption>,
    pub total_voter_count: u32,
    pub is_closed: bool,
    pub is_anonymous: bool,
    pub type_field: PollType,
    pub allows_multiple_answers: bool,
    pub correct_option_id: Option<u8>,
    pub explanation: Option<String>,
    pub explanation_entities: Option<Vec<MessageEntity>>,
    pub open_period: Option<u32>,
    pub close_date: Option<u64>,
}

#[derive(Clone, Debug, PartialEq)]
pub struct ProximityAlertTriggered {
    pub traveler: User,
    pub watcher: User,
    pub distance: u32,
}

#[derive(Clone, Debug, PartialEq)]
pub struct MessageAutoDeleteTimerChanged {
    pub message_auto_delete_time: u32,
}

#[derive(Clone, Debug, PartialEq)]
pub struct VoiceChatEnded {
    pub duration: u32,
}

#[derive(Clone, Debug, PartialEq)]
pub struct VoiceChatParticipantsInvited {
    pub users: Option<Vec<User>>,
}

#[derive(Clone, Debug, PartialEq)]
pub struct UserProfilePhotos {
    pub total_count: u32,
    pub photos: Vec<Vec<PhotoSize>>,
}

#[derive(Clone, Debug, PartialEq)]
pub struct File {
    pub file_id: String,
    pub file_unique_id: String,
    pub file_size: Option<u32>,
    pub file_path: Option<String>,
}

#[derive(Clone, Debug, PartialEq)]
pub struct ReplyKeyboardMarkup {
    pub keyboard: Vec<Vec<KeyboardButton>>,
    pub resize_keyboard: Option<bool>,
    pub one_time_keyboard: Option<bool>,
    pub input_field_placeholder: Option<String>,
    pub selective: Option<bool>,
}

#[derive(Clone, Debug, PartialEq)]
pub struct KeyboardButton {
    pub text: String,
    pub request_contact: Option<bool>,
    pub request_location: Option<bool>,
    pub request_poll: Option<KeyboardButtonPollType>,
}

#[derive(Clone, Debug, PartialEq)]
pub struct KeyboardButtonPollType {
    pub type_field: Option<PollType>,
}

#[derive(Clone, Debug, PartialEq)]
pub struct ReplyKeyboardRemove {
    pub remove_keyboard: bool,
    pub selective: Option<bool>,
}

#[derive(Clone, Debug, PartialEq)]
pub struct InlineKeyboardMarkup {
    pub inline_keyboard: Vec<Vec<InlineKeyboardButton>>,
}

#[derive(Clone, Debug, PartialEq)]
pub struct InlineKeyboardButton {
    pub text: String,
    pub url: Option<String>,
    pub login_url: Option<LoginUrl>,
    pub callback_data: Option<String>,
    pub switch_inline_query: Option<String>,
    pub switch_inline_query_current_chat: Option<String>,
    pub callback_game: Option<CallbackGame>,
    pub pay: Option<bool>,
}

#[derive(Clone, Debug, PartialEq)]
pub struct LoginUrl {
    pub url: String,
    pub forward_text: Option<String>,
    pub bot_username: Option<String>,
    pub request_write_access: Option<bool>,
}

#[derive(Clone, Debug, PartialEq)]
pub struct ForceReply {
    pub force_reply: bool,
    pub input_field_placeholder: Option<String>,
    pub selective: Option<bool>,
}

#[derive(Clone, Debug, PartialEq)]
pub struct ChatPhoto {
    pub small_file_id: String,
    pub small_file_unique_id: String,
    pub big_file_id: String,
    pub big_file_unique_id: String,
}

#[derive(Clone, Debug, PartialEq)]
pub struct ChatInviteLink {
    pub invite_link: String,
    pub creator: User,
    pub creates_join_request: bool,
    pub is_primary: bool,
    pub is_revoked: bool,
    pub name: Option<String>,
    pub expire_date: Option<u64>,
    pub member_limit: Option<u32>,
    pub pending_join_request_count: Option<u32>,
}

#[derive(Clone, Debug, PartialEq)]
pub struct ChatPermissions {
    pub can_send_messages: Option<bool>,
    pub can_send_media_messages: Option<bool>,
    pub can_send_polls: Option<bool>,
    pub can_send_other_messages: Option<bool>,
    pub can_add_web_page_previews: Option<bool>,
    pub can_change_info: Option<bool>,
    pub can_invite_users: Option<bool>,
    pub can_pin_messages: Option<bool>,
}

#[derive(Clone, Debug, PartialEq)]
pub struct BotCommand {
    pub command: String,
    pub description: String,
}

#[derive(Clone, Debug, PartialEq)]
pub struct ResponseParameters {
    pub migrate_to_chat_id: Option<i64>,
    pub retry_after: Option<u16>,
}

#[derive(Clone, Debug, PartialEq)]
pub struct LabeledPrice {
    pub label: String,
    pub amount: u32,
}

#[derive(Clone, Debug, PartialEq)]
pub struct Invoice {
    pub title: String,
    pub description: String,
    pub start_parameter: String,
    pub currency: String,
    pub total_amount: u32,
}

#[derive(Clone, Debug, PartialEq)]
pub struct ShippingAddress {
    pub country_code: String,
    pub state: String,
    pub city: String,
    pub street_line1: String,
    pub street_line2: String,
    pub post_code: String,
}

#[derive(Clone, Debug, PartialEq)]
pub struct OrderInfo {
    pub name: Option<String>,
    pub phone_number: Option<String>,
    pub email: Option<String>,
    pub shipping_address: Option<ShippingAddress>,
}

#[derive(Clone, Debug, PartialEq)]
pub struct ShippingOption {
    pub id: String,
    pub title: String,
    pub prices: Vec<LabeledPrice>,
}

#[derive(Clone, Debug, PartialEq)]
pub struct SuccessfulPayment {
    pub currency: String,
    pub total_amount: u32,
    pub invoice_payload: String,
    pub shipping_option_id: Option<String>,
    pub order_info: Option<OrderInfo>,
    pub telegram_payment_charge_id: String,
    pub provider_payment_charge_id: String,
}

#[derive(Clone, Debug, PartialEq)]
pub struct ShippingQuery {
    pub id: String,
    pub from: User,
    pub invoice_payload: String,
    pub shipping_address: ShippingAddress,
}

#[derive(Clone, Debug, PartialEq)]
pub struct PreCheckoutQuery {
    pub id: String,
    pub from: User,
    pub currency: String,
    pub total_amount: u32,
    pub invoice_payload: String,
    pub shipping_option_id: Option<String>,
    pub order_info: Option<OrderInfo>,
}

#[derive(Clone, Debug, PartialEq)]
pub struct PassportData {
    pub data: Vec<EncryptedPassportElement>,
    pub credentials: EncryptedCredentials,
}

#[derive(Clone, Debug, PartialEq)]
pub struct PassportFile {
    pub file_id: String,
    pub file_unique_id: String,
    pub file_size: u32,
    pub file_date: u64,
}

#[derive(Clone, Debug, PartialEq)]
pub struct EncryptedPassportElement {
    pub type_field: EncryptedPassportElementType,
    pub data: Option<String>,
    pub phone_number: Option<String>,
    pub email: Option<String>,
    pub files: Option<Vec<PassportFile>>,
    pub front_side: Option<PassportFile>,
    pub reverse_side: Option<PassportFile>,
    pub selfie: Option<PassportFile>,
    pub translation: Option<Vec<PassportFile>>,
    pub hash: String,
}

#[derive(Clone, Debug, PartialEq)]
pub struct EncryptedCredentials {
    pub data: String,
    pub hash: String,
    pub secret: String,
}

#[derive(Clone, Debug, PartialEq)]
pub struct PassportElementErrorDataField {
    pub type_field: PassportElementErrorDataFieldType,
    pub field_name: String,
    pub data_hash: String,
    pub message: String,
}

#[derive(Clone, Debug, PartialEq)]
pub struct PassportElementErrorFrontSide {
    pub type_field: PassportElementErrorFrontSideType,
    pub file_hash: String,
    pub message: String,
}

#[derive(Clone, Debug, PartialEq)]
pub struct PassportElementErrorReverseSide {
    pub type_field: PassportElementErrorReverseSideType,
    pub file_hash: String,
    pub message: String,
}

#[derive(Clone, Debug, PartialEq)]
pub struct PassportElementErrorSelfie {
    pub type_field: PassportElementErrorSelfieType,
    pub file_hash: String,
    pub message: String,
}

#[derive(Clone, Debug, PartialEq)]
pub struct PassportElementErrorFile {
    pub type_field: PassportElementErrorFileType,
    pub file_hash: String,
    pub message: String,
}

#[derive(Clone, Debug, PartialEq)]
pub struct PassportElementErrorFiles {
    pub type_field: PassportElementErrorFileType,
    pub file_hashes: Vec<String>,
    pub message: String,
}

#[derive(Clone, Debug, PartialEq)]
pub struct PassportElementErrorTranslationFile {
    pub type_field: PassportElementErrorTranslationFileType,
    pub file_hash: String,
    pub message: String,
}

#[derive(Clone, Debug, PartialEq)]
pub struct PassportElementErrorTranslationFiles {
    pub type_field: PassportElementErrorTranslationFileType,
    pub file_hashes: Vec<String>,
    pub message: String,
}

#[derive(Clone, Debug, PartialEq)]
pub struct PassportElementErrorUnspecified {
    pub type_field: EncryptedPassportElementType,
    pub element_hash: String,
    pub message: String,
}

#[derive(Clone, Debug, PartialEq)]
pub struct Game {
    pub title: String,
    pub description: String,
    pub photo: Vec<PhotoSize>,
    pub text: Option<String>,
    pub text_entities: Option<Vec<MessageEntity>>,
    pub animation: Option<Animation>,
}

#[derive(Clone, Debug, PartialEq)]
pub struct GameHighScore {
    pub position: u32,
    pub user: User,
    pub score: i32,
}

} // verus!
