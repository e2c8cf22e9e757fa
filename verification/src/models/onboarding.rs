//! Onboarding: the steps a new user goes through, and the answers on them.
use vstd::prelude::*;
use crate::text::same_text;

verus! {

/// The steps of onboarding, in the order in which they are taken.
#[derive(Debug, Clone, Copy, PartialEq, Eq, Hash, Structural)]
pub enum OnboardingStep {
    BasicInfo,
    LifestyleHealth,
    PermissionsSetup,
    Personalization,
    Completed,
}

/// The name under which a step is stored.
pub open spec fn step_name(step: OnboardingStep) -> Seq<char> {
    match step {
        OnboardingStep::BasicInfo => "basic_info"@,
        OnboardingStep::LifestyleHealth => "lifestyle_health"@,
        OnboardingStep::PermissionsSetup => "permissions_setup"@,
        OnboardingStep::Personalization => "personalization"@,
        OnboardingStep::Completed => "completed"@,
    }
}

/// The step that follows a step; nothing follows `Completed`.
pub open spec fn step_after(step: OnboardingStep) -> OnboardingStep {
    match step {
        OnboardingStep::BasicInfo => OnboardingStep::LifestyleHealth,
        OnboardingStep::LifestyleHealth => OnboardingStep::PermissionsSetup,
        OnboardingStep::PermissionsSetup => OnboardingStep::Personalization,
        OnboardingStep::Personalization => OnboardingStep::Completed,
        OnboardingStep::Completed => OnboardingStep::Completed,
    }
}

/// The step that is stored under a name, if it is the name of a step.
pub open spec fn step_of_name(name: Seq<char>) -> Option<OnboardingStep> {
    if name == step_name(OnboardingStep::BasicInfo) {
        Some(OnboardingStep::BasicInfo)
    } else if name == step_name(OnboardingStep::LifestyleHealth) {
        Some(OnboardingStep::LifestyleHealth)
    } else if name == step_name(OnboardingStep::PermissionsSetup) {
        Some(OnboardingStep::PermissionsSetup)
    } else if name == step_name(OnboardingStep::Personalization) {
        Some(OnboardingStep::Personalization)
    } else if name == step_name(OnboardingStep::Completed) {
        Some(OnboardingStep::Completed)
    } else {
        None
    }
}

impl OnboardingStep {
    /// The step that is stored under a name.
    pub fn from_name(name: &str) -> (step: Option<OnboardingStep>)
        ensures
            step == step_of_name(name@),
    {
        if same_text(name, "basic_info") {
            Some(OnboardingStep::BasicInfo)
        } else if same_text(name, "lifestyle_health") {
            Some(OnboardingStep::LifestyleHealth)
        } else if same_text(name, "permissions_setup") {
            Some(OnboardingStep::PermissionsSetup)
        } else if same_text(name, "personalization") {
            Some(OnboardingStep::Personalization)
        } else if same_text(name, "completed") {
            Some(OnboardingStep::Completed)
        } else {
            None
        }
    }

    /// The name under which this step is stored.
    pub fn as_str(&self) -> (name: &'static str)
        ensures
            name@ == step_name(*self),
    {
        match self {
            OnboardingStep::BasicInfo => "basic_info",
            OnboardingStep::LifestyleHealth => "lifestyle_health",
            OnboardingStep::PermissionsSetup => "permissions_setup",
            OnboardingStep::Personalization => "personalization",
            OnboardingStep::Completed => "completed",
        }
    }

    /// The step that follows this one.
    pub fn next(&self) -> (following: OnboardingStep)
        ensures
            following == step_after(*self),
    {
        match self {
            OnboardingStep::BasicInfo => OnboardingStep::LifestyleHealth,
            OnboardingStep::LifestyleHealth => OnboardingStep::PermissionsSetup,
            OnboardingStep::PermissionsSetup => OnboardingStep::Personalization,
            OnboardingStep::Personalization => OnboardingStep::Completed,
            OnboardingStep::Completed => OnboardingStep::Completed,
        }
    }
}

/// How far a user has come: which steps are done, and the step that is due.
#[derive(Debug, Clone, Copy, PartialEq, Eq, Structural)]
pub struct OnboardingState {
    pub basic_info_completed: bool,
    pub lifestyle_health_completed: bool,
    pub permissions_setup_completed: bool,
    pub current_step: OnboardingStep,
}

/// The state after a form was handed in. The form's step is marked as done.
/// The step that is due moves on only if it was the form's own step: a form
/// handed in again, or out of turn, moves nothing. Forms are the first three
/// steps; for the other two the state stays as it is.
pub open spec fn state_after(state: OnboardingState, form: OnboardingStep) -> OnboardingState {
    let current_step = if state.current_step == form {
        step_after(form)
    } else {
        state.current_step
    };
    match form {
        OnboardingStep::BasicInfo => OnboardingState { basic_info_completed: true, current_step, ..state },
        OnboardingStep::LifestyleHealth => OnboardingState { lifestyle_health_completed: true, current_step, ..state },
        OnboardingStep::PermissionsSetup => OnboardingState { permissions_setup_completed: true, current_step, ..state },
        _ => state,
    }
}

impl OnboardingState {
    /// The state of a user who has done nothing yet.
    pub fn start() -> (state: OnboardingState)
        ensures
            state == (OnboardingState {
                basic_info_completed: false,
                lifestyle_health_completed: false,
                permissions_setup_completed: false,
                current_step: OnboardingStep::BasicInfo,
            }),
    {
        OnboardingState {
            basic_info_completed: false,
            lifestyle_health_completed: false,
            permissions_setup_completed: false,
            current_step: OnboardingStep::BasicInfo,
        }
    }

    /// The state after the form of a step was handed in.
    pub fn after_form(&self, form: OnboardingStep) -> (state: OnboardingState)
        ensures
            state == state_after(*self, form),
    {
        let moved = match (self.current_step, form) {
            (OnboardingStep::BasicInfo, OnboardingStep::BasicInfo) => true,
            (OnboardingStep::LifestyleHealth, OnboardingStep::LifestyleHealth) => true,
            (OnboardingStep::PermissionsSetup, OnboardingStep::PermissionsSetup) => true,
            _ => false,
        };
        let current_step = if moved { form.next() } else { self.current_step };
        match form {
            OnboardingStep::BasicInfo => OnboardingState {
                basic_info_completed: true,
                lifestyle_health_completed: self.lifestyle_health_completed,
                permissions_setup_completed: self.permissions_setup_completed,
                current_step,
            },
            OnboardingStep::LifestyleHealth => OnboardingState {
                basic_info_completed: self.basic_info_completed,
                lifestyle_health_completed: true,
                permissions_setup_completed: self.permissions_setup_completed,
                current_step,
            },
            OnboardingStep::PermissionsSetup => OnboardingState {
                basic_info_completed: self.basic_info_completed,
                lifestyle_health_completed: self.lifestyle_health_completed,
                permissions_setup_completed: true,
                current_step,
            },
            _ => *self,
        }
    }
}

/// Every step is read back from its own name.
pub proof fn lemma_step_name_round_trip(step: OnboardingStep)
    ensures
        step_of_name(step_name(step)) == Some(step),
{
    reveal_strlit("basic_info");
    reveal_strlit("lifestyle_health");
    reveal_strlit("permissions_setup");
    reveal_strlit("personalization");
    reveal_strlit("completed");
    assert("basic_info"@.len() == 10);
    assert("lifestyle_health"@.len() == 16);
    assert("permissions_setup"@.len() == 17);
    assert("personalization"@.len() == 15);
    assert("completed"@.len() == 9);
}

/// Handing in the same form twice leaves the state as after the first time.
pub proof fn lemma_form_twice(state: OnboardingState, form: OnboardingStep)
    ensures
        state_after(state_after(state, form), form) == state_after(state, form),
{
}

/// The answer to a question after a user's progress.
#[derive(Debug, Clone)]
pub struct OnboardingStatusResponse {
    pub user_id: String,
    pub basic_info_completed: bool,
    pub lifestyle_health_completed: bool,
    pub permissions_setup_completed: bool,
    pub personalization_completed: bool,
    pub onboarding_completed: bool,
    pub current_step: String,
}

/// A user's habits, as they are read back.
#[derive(Debug, Clone)]
pub struct LifestyleHealthResponse {
    pub activity_level: String,
    pub bedtime: Option<String>,
    pub wake_time: Option<String>,
    pub is_smoker: Option<bool>,
    pub alcohol_consumption: Option<String>,
    pub tracks_menstrual_cycle: Option<bool>,
    pub medical_conditions: Vec<String>,
}

/// One link to another service, as it is read back.
#[derive(Debug, Clone)]
pub struct ThirdPartyConnectionResponse {
    pub connection_type: String,
    pub connection_status: String,
    pub last_sync_at: Option<String>,
}

/// What a user has allowed, as it is read back.
#[derive(Debug, Clone)]
pub struct PermissionsSetupResponse {
    pub heart_rate_enabled: bool,
    pub temperature_enabled: bool,
    pub spo2_enabled: bool,
    pub accelerometer_enabled: bool,
    pub notifications_enabled: bool,
    pub background_usage_enabled: bool,
    pub third_party_connections: Vec<ThirdPartyConnectionResponse>,
}

/// A user's circumstances, as they are read back.
#[derive(Debug, Clone)]
pub struct PersonalizationResponse {
    pub stress_triggers: Option<Vec<String>>,
    pub work_type: Option<String>,
    pub timezone: Option<String>,
}

/// The envelope of every answer: a status, a message for the reader, and the
/// data that was asked for.
#[derive(Debug, Clone)]
pub struct ApiResponse<T> {
    pub status: String,
    pub message: Option<String>,
    pub data: Option<T>,
}

impl<T> ApiResponse<T> {
    /// An answer that carries data, and a message where there is one to give.
    pub fn success(message: Option<String>, data: Option<T>) -> (response: ApiResponse<T>)
        ensures
            response.status@ == "success"@,
            response.message == message,
            response.data == data,
    {
        ApiResponse { status: "success".to_string(), message, data }
    }

    /// An answer that reports a failure: a message and no data.
    pub fn error(message: String) -> (response: ApiResponse<T>)
        ensures
            response.status@ == "error"@,
            response.message == Some(message),
            response.data is None,
    {
        ApiResponse { status: "error".to_string(), message: Some(message), data: None }
    }
}

} // verus!
