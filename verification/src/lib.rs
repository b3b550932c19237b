//! A typed client library for a space-domain-awareness REST service.
//!
//! The data model mirrors the remote JSON contract field by field; the
//! client builds one fully described request per endpoint. What each codec
//! writes and reads, how query strings render, and how responses classify
//! is stated in the contracts and checked by Verus. The network transport
//! itself lives outside this crate.
pub mod client;
pub mod entities;
pub mod error;
pub mod json;
pub mod laws;
pub mod num;
pub mod query;

pub use client::CitraClient;
pub use client::HttpRequest;
pub use client::Method;
pub use client::first_of;
pub use client::groundstations_from_list_response;
pub use entities::access::FOVAccessRequest;
pub use entities::access::FOVAccessResponse;
pub use entities::access::HorizonAccess;
pub use entities::access::SatelliteAccessToGroundstationRequest;
pub use entities::access::SensorFrame;
pub use entities::access::TrackingParameters;
pub use entities::account::AddGroupMemberRequest;
pub use entities::account::GroupMember;
pub use entities::account::UpdatePreferencesRequest;
pub use entities::account::UserAccount;
pub use entities::account::UserPreferences;
pub use entities::alert_subscription::AlertSubscription;
pub use entities::alert_subscription::AlertType;
pub use entities::alert_subscription::CreateAlertSubscriptionRequest;
pub use entities::alert_subscription::TargetType;
pub use entities::alert_subscription::UpdateAlertSubscriptionRequest;
pub use entities::antenna::Antenna;
pub use entities::auth::CreatePersonalAccessTokenRequest;
pub use entities::auth::PersonalAccessToken;
pub use entities::auth::CreatePersonalAccessTokenResponse;
pub use entities::auth::PersonalAccessTokenListResponse;
pub use entities::collection_request::CollectionRequest;
pub use entities::collection_request::CollectionRequestType;
pub use entities::collection_request::CreateCollectionRequestRequest;
pub use entities::elset::CreateElsetRequest;
pub use entities::elset::Elset;
pub use entities::elset::ElsetCount;
pub use entities::elset::ElsetHistoryQuery;
pub use entities::elset::GeoScatterPoint;
pub use entities::elset::LeoScatterPoint;
pub use entities::filter::Filter;
pub use entities::filter::FilterExpandRequest;
pub use entities::filter::FilterExpandResponse;
pub use entities::groundstation::Groundstation;
pub use entities::groundstation::GroundstationCreateRequest;
pub use entities::image::ImageData;
pub use entities::image::ImageDataRequest;
pub use entities::image::ImageListQuery;
pub use entities::image::ImageStatus;
pub use entities::image::ImageUploadRequest;
pub use entities::image::ImageUploadResponse;
pub use entities::maneuver::CreateManeuverRequest;
pub use entities::maneuver::Maneuver;
pub use entities::maneuver::ManeuverListQuery;
pub use entities::maneuver::UpdateManeuverRequest;
pub use entities::observation::CreateOpticalObservationRequest;
pub use entities::observation::ObservationCount;
pub use entities::observation::ObservationQuery;
pub use entities::observation::OpticalObservation;
pub use entities::orbit_determination::ODObservation;
pub use entities::orbit_determination::ODRequest;
pub use entities::orbit_determination::ODResult;
pub use entities::rf_observation::CreateRFCaptureRequest;
pub use entities::rf_observation::RFCapture;
pub use entities::rf_observation::RFCaptureData;
pub use entities::rf_observation::RFCaptureSummary;
pub use entities::rf_observation::RFDetection;
pub use entities::rf_observation::RFPowerSpectralDensity;
pub use entities::satellite::CloseApproach;
pub use entities::satellite::CountryCount;
pub use entities::satellite::GroundTrackPoint;
pub use entities::satellite::ObservationBounds;
pub use entities::satellite::ObservationResidual;
pub use entities::satellite::OrbitalElements;
pub use entities::satellite::RelativeState;
pub use entities::satellite::ResidualResult;
pub use entities::satellite::ResidualsRequest;
pub use entities::satellite::Satellite;
pub use entities::satellite::SatelliteListQuery;
pub use entities::satellite::SatelliteOverview;
pub use entities::satellite::SatellitePageResponse;
pub use entities::satellite::SatellitePaginatedResponse;
pub use entities::satellite_group::CreateSatelliteGroupRequest;
pub use entities::satellite_group::SatelliteGroup;
pub use entities::satellite_group::SatelliteGroupMembersRequest;
pub use entities::satellite_group::UpdateSatelliteGroupRequest;
pub use entities::task::CreateTaskRequest;
pub use entities::task::Task;
pub use entities::task::TaskStatus;
pub use entities::task::TaskUpdateRequest;
pub use entities::telescope::Telescope;
pub use entities::weather::CurrentWeather;
pub use entities::weather::MinutelyForecast;
pub use entities::weather::WeatherCondition;
pub use entities::weather::WeatherQuery;
pub use entities::weather::WeatherResponse;
pub use error::LemonaidError;
pub use error::classify_response;
pub use json::Decimal;
pub use json::Json;
pub use json::write_json;
pub use query::render_query;
