use machine_factory::deterministic_state_machine::deterministic_state_machine;
use machine_factory::event_driven_state_machine::event_driven_state_machine;
use machine_factory::token::{Delimiter, Token};

fn tokens_of(stream: proc_macro2::TokenStream) -> Vec<Token> {
    stream
        .into_iter()
        .map(|tree| match tree {
            proc_macro2::TokenTree::Group(group) => {
                let delimiter = match group.delimiter() {
                    proc_macro2::Delimiter::Parenthesis => Delimiter::Parenthesis,
                    proc_macro2::Delimiter::Brace => Delimiter::Brace,
                    proc_macro2::Delimiter::Bracket => Delimiter::Bracket,
                    proc_macro2::Delimiter::None => Delimiter::Invisible,
                };
                Token::Group(delimiter, tokens_of(group.stream()))
            }
            proc_macro2::TokenTree::Ident(ident) => Token::Ident(ident.to_string()),
            proc_macro2::TokenTree::Punct(punct) => {
                Token::Punct(punct.as_char(), punct.spacing() == proc_macro2::Spacing::Joint)
            }
            proc_macro2::TokenTree::Literal(literal) => Token::Literal(literal.to_string()),
        })
        .collect()
}

fn lex(source: &str) -> Vec<Token> {
    tokens_of(source.parse::<proc_macro2::TokenStream>().expect("the source is lexed"))
}

fn items_of(text: &str) -> usize {
    syn::parse_str::<syn::File>(text).expect("the expansion parses as Rust").items.len()
}

const TRAFFIC_LIGHT: &str = r####"
    #[derive(Debug)] // Attributes can optionally be added to the generated state machine's struct
    #[derive(Clone)] // Multiple attributes are allowed
    // Visibility, `async`, and `struct` are optional,
    // and are followed by a required Identifier for the state machine.
    // The async keyword makes the expanded methods async by default.
    pub async struct TrafficLight {
        // Path to the context for the state machine
        context: TrafficLightContext,
        // Identifier for the generated enum of states
        // Attributes can also optionally be added to the generated enum
        state_enum: #[derive(Debug, Clone)] TrafficLightState,
        // Define a trait that all states must implement.
        // The macro will automatically define the required methods
        // (i.e., `on_enter`, `on_exit`, `should_exit`), with default implementations,
        // if they are not provided.
        state_trait: pub trait TrafficLightStateTrait {
            // The traffic-light is defaulting to `async`, so we override the default
            // `should_exit` method to not be async, and provide a default implementation.
            fn should_exit(
                &self,
                context: &TrafficLightContext,
                event: &TrafficLightEvent,
            ) -> bool {
                if context.in_emergency {
                    // If we're in an emergency, we don't want to change the state,
                    // unless the vehicle passing is an emergency vehicle.
                    return matches!(event, TrafficLightEvent::CarPassed(CarPassed { emergency_vehicle: true }));
                }
                
                true
            }

            // We can also define additional methods on the trait.
            fn color(&self) -> TrafficLightColor;
        },
        // Identifier for the generated enum of events
        // Attributes can also optionally be added to the generated enum, like with `state_enum`
        event_enum: TrafficLightEvent,
        // Define a trait that all events must implement.
        // The macro will automatically define the required methods
        // (i.e., `pre_transition`, `post_transtion`), with default implementations,
        // if they are not provided.
        event_trait: pub trait TrafficLightEventTrait: Send {
            // We've added a 'Send' bound to the trait, which is required because
            // the `pre_transition` and `post_transition` methods are async,
            // and the events are held across async boundaries.

            // We can also define additional methods on the trait.
            fn is_emergency(&self) -> bool {
                false
            }
        },
        // List of transitions for the state machine
        states: [
            Red {
                // This is a transition from the `Red` state to the `Green` state,
                // triggered by the `Next` event.
                // Since a body is not provided, `Green::default()` is used to create the new state.
                Next -> Green,
                EmergencyVehicleApproaching {
                    // We can use logic to decide which state to transition to.
                    // We have access to the current state (`mut state`), the context (`&mut context`),
                    // and the event (`&mut event`).
                    // Here, we're accessing data on the event to make our decision.
                    match event.requested_color {
                        TrafficLightColor::Red => {
                            // Since we may be returning any state, we need to convert it to the state enum.
                            // The `from` trait is automatically implemented for each state for the state enum.
                            TrafficLightState::from(state)
                        },
                        TrafficLightColor::Yellow => {
                            Yellow {}.into()
                        }
                        TrafficLightColor::Green => {
                            Green {}.into()
                        }
                    }
                },
            },
            Yellow {
                Next -> Red,
            },
            Green {
               Next -> Yellow,
            },
            // You can optionally define a catch-all transition that applies to all state/event pairs not explicitly defined.
            _ {
                if let TrafficLightEvent::EmergencyVehicleApproaching(EmergencyVehicleApproaching { requested_color }) = event {
                    context.in_emergency = true;
                    TrafficLightState::from(*requested_color)
                } else {
                    // We are going to remain in the same state.
                    // This doesn't short-circit the transition like `should_exit` can.
                    // `on_exit` and `pre_transition` have already been called, and
                    // `post_transition` and `on_enter` will be called
                    state
                }
            }
        ],
        // Optionally, you can add other events that can be raised on the state machine.
        // If the event appears in the `states` block, it does not need to be defined here.
        events: [
           CarPassed, // No matter the state, the default transition block will be used for this event
        ],
    }
"####;

const CAMERA: &str = r####"

    #[derive(Debug)]
    pub async Camera {
        context: Storage,
        state_enum: #[derive(Debug)] CameraState,
        state_trait: trait CameraStateTrait {
            // The camera is defaulting to `async`, so we override the default
            // `should_exit` method to not be async, as it's not needed.
            fn should_exit(
                &self,
                context: &Storage,
                event: &CameraEvent,
            ) -> bool;
        },
        event_enum: CameraEvent,
        event_trait: trait CameraEventTrait: Send {},
        states: [
            Standby {
                StartRecording -> Recording,
            },
            Recording {
                StopRecording -> Standby,
            },
            _ { state }
        ]
    }

"####;

const CHANGING_LIGHT: &str = r####"
    #[derive(Debug)] // Attributes can optionally be added to the generated state machine's struct
    #[derive(Clone)] // Multiple attributes are allowed
    // Visibility and the struct keywords are also optional,
    // and are followed by a required Identifier for the state machine
    pub struct TrafficLight {
        // Path to the context for the state machine
        context: TrafficLightContext,
        // Optionally specify a trait that all states must implement
        state_trait: pub trait TrafficLightStateTrait {
            fn color(&self) -> String;
        },
        // List of states and their transitions
        states: [
            // Each state's transitions are defined as functions in a block,
            // similar to an impl block (which is what they expand to).
            Red {
                pub fn change(self) -> TrafficLight<Green> {
                   let Self { mut context, .. } = self;
                   context.changes_count += 1;
                   TrafficLight { context, state: Green }
                }
            },
            Yellow {
                pub fn change(self) -> TrafficLight<Red> {
                    let Self { mut context, .. } = self;
                    context.changes_count += 1;
                    TrafficLight { context, state: Red }
                }

                // You can transition to multiple states from a single state
                // by defining multiple functions with different return types.
                pub fn back_to_green(self) -> TrafficLight<Green> {
                    let Self { mut context, .. } = self;
                    context.changes_count += 1;
                    TrafficLight { context, state: Green }
                }
            },
            Green {
                pub fn change(self) -> TrafficLight<Yellow> {
                    let Self { mut context, .. } = self;
                    context.changes_count += 1;
                    TrafficLight { context, state: Yellow }
                }

                // You can also define state-specific methods;
                // it isn't required that a transition occurs.
                // This function is only available when the
                // traffic-light is in the Green state.
                pub fn car_passed(&mut self) {
                    self.context.car_count += 1;
                }
            },
        ],
    }
"####;

const REQUEST_BUILDER: &str = r####"

    /// A simple HTTP request builder
    #[derive(Debug, Clone)]
    pub HttpRequest {
        context: HttpRequestBuilderData,
        // Optionally specify a trait that all states must implement
        state_trait: trait HttpRequestStateTrait {},
        states: [
            NeedsMethod {
                pub fn set_method(self, method: Method) -> HttpRequest<NeedsUrl> {
                    let Self { mut context, .. } = self;
                    context.method = Some(method);
                    HttpRequest { context, state: NeedsUrl }
                }
            },
            NeedsUrl {
                pub fn set_url(self, url: Url) -> HttpRequest<NeedsHeaders> {
                    let Self { mut context, .. } = self;
                    context.url = Some(url);
                    HttpRequest { context, state: NeedsHeaders }
                }
            },
            NeedsHeaders {
                pub fn set_headers(self, headers: HeaderMap) -> HttpRequest<NeedsBody> {
                    let Self { mut context, .. } = self;
                    context.headers = Some(headers);
                    HttpRequest { context, state: NeedsBody }
                }
            },
            NeedsBody {
                pub fn no_body(self) -> HttpRequest<Pending> {
                    self.set_body(None).expect("setting body failed")
                }

                pub fn set_body(self, body: Option<Vec<u8>>) -> Result<HttpRequest<Pending>, &'static str> {
                    if let Some(body) = &body {
                        if body.len() > 1024 {
                            return Err("body too large");
                        }
                    }

                    let HttpRequest { mut context, .. } = self;
                    context.body = body;
                    Ok(HttpRequest { context, state: Pending })
                }

                pub fn set_json_body<Body: Serialize>(self, body: &Body) -> anyhow::Result<HttpRequest<Pending>> {
                    let body = serde_json::to_vec(body).context("failed to serialize body")?;
                    self.set_body(Some(body)).map_err(|e| anyhow::anyhow!(e)).context("failed to set body")
                }

                pub async fn send(self) -> Result<Response, reqwest::Error> {
                    self.no_body().send().await
                }
            },
            Pending {
                pub async fn send(self) -> Result<Response, reqwest::Error> {
                    let HttpRequest { mut context, .. } = self;
                    let HttpRequestBuilderData {
                        method,
                        url,
                        headers,
                        body,
                    } = &mut context;

                    let url = url.take().expect("url not set");

                    let request = reqwest::Client::new();
                    let request = match method
                        .take()
                        .expect("method not set")
                    {
                        Method::GET => request.get(url),
                        Method::POST => request.post(url),
                        Method::PUT => request.put(url),
                        Method::DELETE => request.delete(url),
                        #[allow(clippy::unimplemented)]
                        _ => unimplemented!(
                            "Implement the rest, or make sure the state machine is not used with unsupported methods"
                        ),
                    };

                    let request = request.headers(
                        headers.take().expect("headers not set"),
                    );

                    let request = if let Some(body) = body.take() {
                        request.body(body)
                    } else {
                        request
                    };

                    let response = request.send().await?;
                    let status_code = response.status().as_u16();

                    Ok(Response { status_code })
                }
            },
        ]
}
"####;

#[test]
fn the_traffic_light_with_emergencies_compiles() {
    let text = event_driven_state_machine(&lex(TRAFFIC_LIGHT)).expect("a sound description");
    assert_eq!(items_of(&text), 14);
    assert!(text.contains("# [derive (Debug ) ]  # [derive (Clone ) ]  pub  struct TrafficLight { context: TrafficLightContext, "));
    assert!(text.contains("pub async fn handle_event<Event: Into<TrafficLightEvent> + TrafficLightEventTrait>"));
    assert!(text.contains("enum TrafficLightEvent { Next(Next), EmergencyVehicleApproaching(EmergencyVehicleApproaching), CarPassed(CarPassed), }"));
    assert!(text.contains("if !TrafficLightState::should_exit(&state, &self.context, &event) {"));
    assert!(text.contains("async fn handle__unhandled_event(mut state: TrafficLightState, event: &mut TrafficLightEvent, context: &mut TrafficLightContext)"));
    assert!(text.contains("fn is_emergency (& self ) -> bool  { match self { Self::Next(event) => Next::is_emergency(event), "));
}

#[test]
fn the_camera_compiles() {
    let text = event_driven_state_machine(&lex(CAMERA)).expect("a sound description");
    assert_eq!(items_of(&text), 12);
    assert!(text.contains("enum CameraState { Standby(Standby), Recording(Recording), }"));
    assert!(text.contains("(CameraState::Standby(state), CameraEvent::StartRecording(event)) => { { Recording::default() }.into() } "));
    assert!(text.contains("CameraStateTrait::on_exit(&mut state, &mut self.context).await; "));
}

#[test]
fn the_changing_light_compiles() {
    let text = deterministic_state_machine(&lex(CHANGING_LIGHT)).expect("a well-formed description");
    assert_eq!(items_of(&text), 6);
    assert!(text.contains("impl TrafficLight<Yellow> { pub fn change (self ) -> TrafficLight < Red > "));
    assert!(text.contains("pub fn back_to_green (self ) -> TrafficLight < Green > "));
    assert!(text.contains("impl TrafficLight<Green> { pub fn change (self ) -> TrafficLight < Yellow > "));
    assert!(text.contains("pub fn car_passed (& mut self ) { self . context . car_count += 1 ; } "));
}

#[test]
fn the_request_builder_compiles() {
    let text = deterministic_state_machine(&lex(REQUEST_BUILDER)).expect("a well-formed description");
    assert_eq!(items_of(&text), 8);
    assert!(text.contains("pub  struct HttpRequest<State> where State: HttpRequestStateTrait { context: HttpRequestBuilderData, state: State, }"));
    assert!(text.contains("impl HttpRequest<NeedsBody> { pub fn no_body (self ) -> HttpRequest < Pending > "));
    assert!(text.contains("pub async fn send (self ) -> Result < Response , reqwest :: Error > "));
}
