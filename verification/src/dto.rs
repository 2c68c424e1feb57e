//! Corps de requête et de réponse de l'API, en valeurs simples (les
//! identifiants et les horodatages sont portés par les modules qui les lisent).

use vstd::prelude::*;

verus! {

pub struct ReportsQuery {
    pub status: Option<String>,
}

pub struct CloseReportRequest {
    pub outcome: String,
}

#[derive(Debug, Clone, Copy, PartialEq, Eq, Default)]
pub struct KpisDto {
    pub signups: i64,
    pub items_published: i64,
    pub proposals_sent: i64,
    pub trades_created: i64,
    pub trades_finalized: i64,
    pub trades_with_cash: i64,
    pub disputes_opened: i64,
}

pub struct SetRoleRequest {
    pub role: String,
}

pub struct ItemsQuery {
    pub q: Option<String>,
    pub status: Option<String>,
    pub owner: Option<String>,
    pub signalees: Option<bool>,
}

pub struct ModerateRequest {
    pub masquer: bool,
    pub motif: Option<String>,
}

pub struct SuggestQuery {
    pub q: String,
}

pub struct UserSuggestionDto {
    pub pseudo: String,
    pub role: String,
    pub is_master: bool,
    pub annonces: i64,
}

pub struct SignupRequest {
    pub email: String,
    pub password: String,
    pub pseudo: String,
    pub postal_code: String,
}

pub struct LoginRequest {
    pub email: String,
    pub password: String,
}

pub struct UpdateProfileRequest {
    pub pseudo: String,
    pub postal_code: String,
}

pub struct VerifyEmailQuery {
    pub token: Option<String>,
}

pub struct TotpStatusResponse {
    pub enabled: bool,
    pub pending: bool,
    pub session_verified: bool,
    pub recovery_left: i64,
}

pub struct TotpStartResponse {
    pub secret: String,
    pub otpauth_url: String,
    pub qr_svg: String,
}

pub struct TotpCodeRequest {
    pub code: String,
}

pub struct TotpEnableResponse {
    pub recovery_codes: Vec<String>,
}

pub struct PresignRequest {
    pub files: Vec<PresignFile>,
}

pub struct PresignFile {
    pub content_type: String,
    pub size: i32,
}

pub struct UpdateItemRequest {
    pub title: String,
    pub description: String,
    pub category_id: i16,
    pub condition: String,
    pub value_cents: i32,
    pub delivery_pref: String,
    pub exchange_wishes: Option<String>,
    pub accepts_soulte: Option<bool>,
    pub status: String,
}

#[derive(Debug, Clone, PartialEq, Eq)]
pub struct WishlistEntryDto {
    pub category_id: Option<i16>,
    pub keywords: String,
}

pub struct UpdateWishlistRequest {
    pub entries: Vec<WishlistEntryDto>,
}

pub struct FeedQuery {
    pub page: Option<u32>,
}

pub struct ItemPublicQuery {
    pub source: Option<String>,
}

pub struct OpenDisputeRequest {
    pub reason: String,
    pub description: String,
    pub photo_keys: Vec<String>,
}

pub struct RespondDisputeRequest {
    pub response: String,
    pub photo_keys: Vec<String>,
}

pub struct BlockedListResponse {
    pub pseudos: Vec<String>,
}

pub struct AdminDisputePhoto {
    pub uploader_pseudo: String,
    pub url: String,
}

pub struct AdminDisputePayment {
    pub payer_pseudo: String,
    pub amount_cents: i32,
    pub status: String,
}

pub struct ResolveDisputeRequest {
    pub outcome: String,
    pub penalized_pseudo: Option<String>,
    pub note: Option<String>,
}

pub struct ResolveDisputeResponse {
    pub outcome: String,
    pub penalized_score: Option<i32>,
    pub sanction: String,
}

pub struct DisputeListQuery {
    pub status: Option<String>,
}

pub struct UnreadCountResponse {
    pub unread_count: i64,
}

pub struct EmailPrefsResponse {
    pub proposition_recue: bool,
    pub proposition_cloturee: bool,
    pub message_recu: bool,
    pub evaluation: bool,
    pub favori: bool,
}

pub struct ConfirmTradeRequest {
    pub code: String,
}

pub struct PayTradeRequest {
    pub card_number: String,
}

pub struct ConfigureShippingRequest {
    pub format: String,
    pub relay_code: String,
}

pub struct RelayResponse {
    pub code: String,
    pub name: String,
    pub address: String,
}

pub struct ReportIssueRequest {
    pub reason: String,
}

pub struct SubmitReviewRequest {
    pub rating: i16,
    pub comment: Option<String>,
}

pub struct ReviewReplyRequest {
    pub reply: String,
}

pub struct AcceptProposalRequest {
    pub delivery_mode: String,
}

/// `recues` (défaut) ou `envoyees`.
pub struct InboxQuery {
    pub boite: Option<String>,
}

/// Bilan de la maintenance horaire des trocs.
#[derive(Debug, Default, Clone, Copy, PartialEq, Eq)]
pub struct MaintenanceReport {
    pub reminded: usize,
    pub cancelled: usize,
    /// Trocs annulés faute de paiement dans les temps.
    pub payments_expired: usize,
    /// Captures retentées avec succès après un échec à la remise.
    pub captures_retried: usize,
    /// Rappels de dépôt envoyés (J+2 et J+4).
    pub drop_reminders: usize,
    /// Trocs envoi annulés (aucun dépôt J+5).
    pub shipping_cancelled: usize,
    /// Trocs envoi gelés pour examen (dépôt partiel J+5, zombie J+21).
    pub shipping_frozen: usize,
    /// Colis confirmés automatiquement (72 h après retrait).
    pub auto_confirmed: usize,
    /// Évaluations orphelines publiées à J+14.
    pub reviews_published: usize,
    /// Dossiers passés en examen faute de réponse sous 72 h.
    pub disputes_escalated: usize,
}

} // verus!
