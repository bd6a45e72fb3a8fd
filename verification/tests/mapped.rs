use std::sync::Arc;

use input_flow::button::{ButtonKind, MouseButton};
use input_flow::combined::{CombinedEvent, CombinedInput, Event, TimedInput};
use input_flow::keyboard::KeyboardKey;
use input_flow::mapped::{select_mapped_event, MappedContext};
use input_flow::modified::{ModifiedInput, TriggerKind};
use input_flow::modifiers::{Modifiers, ModifiersFilter};

#[derive(Clone, Debug, Eq, Hash, PartialEq)]
enum AppEvent {
    A,
    B,
    C,
    D,
    E,
    F,
}

#[derive(Clone, Debug, Eq, Hash, PartialEq)]
pub enum CustomEvent {
    CoolGesture,
    SmartGesture,
}

#[derive(Clone, Debug, Eq, Hash, PartialEq)]
struct InputMapping {
    event: AppEvent,
    input: CombinedInput<CustomEvent>,
    buttons: Vec<ButtonKind>,
}

impl InputMapping {
    pub fn new(event: AppEvent, input: CombinedInput<CustomEvent>, buttons: Vec<ButtonKind>) -> Self {
        Self { event, input, buttons }
    }
}

#[derive(Clone, Debug)]
struct Context {
    mappings: Vec<InputMapping>,
    events: Vec<Event<AppEvent>>,
}

impl MappedContext for Context {
    type CustomEvent = CustomEvent;
    type MappedEvent = AppEvent;

    fn events(&self, input: &CombinedInput<Self::CustomEvent>) -> Vec<(Self::MappedEvent, ModifiersFilter)> {
        self.mappings
            .iter()
            .filter(|mapping| mapping.input == *input)
            .map(|mapping| {
                (
                    mapping.event.clone(),
                    ModifiersFilter { buttons: mapping.buttons.iter().cloned().collect(), axes_ranges: Vec::new() },
                )
            })
            .collect()
    }

    fn emit(mut self, ev: Event<Self::MappedEvent>) -> Self {
        self.events.push(ev);
        self
    }
}

fn lmb() -> CombinedInput<CustomEvent> {
    CombinedInput::Timed(TimedInput::Click { button: ButtonKind::MouseButton(MouseButton::Primary), num_clicks: 1 })
}

fn rmb() -> CombinedInput<CustomEvent> {
    CombinedInput::Timed(TimedInput::Click { button: ButtonKind::MouseButton(MouseButton::Secondary), num_clicks: 1 })
}

fn cool_gesture() -> CombinedInput<CustomEvent> {
    CombinedInput::Modified(ModifiedInput::Trigger(TriggerKind::Custom(CustomEvent::CoolGesture)))
}

fn smart_gesture() -> CombinedInput<CustomEvent> {
    CombinedInput::Modified(ModifiedInput::Trigger(TriggerKind::Custom(CustomEvent::SmartGesture)))
}

fn ctrl() -> ButtonKind {
    ButtonKind::KeyboardKey(KeyboardKey::LeftCtrl)
}

fn shift() -> ButtonKind {
    ButtonKind::KeyboardKey(KeyboardKey::LeftShift)
}

fn alt() -> ButtonKind {
    ButtonKind::KeyboardKey(KeyboardKey::LeftAlt)
}

fn emitted(context: &Context) -> Vec<AppEvent> {
    context.events.iter().map(|ev| ev.input.clone()).collect()
}

#[test]
fn input_mapping_test() {
    let context = Context {
        mappings: vec![
            InputMapping::new(AppEvent::A, lmb(), vec![ctrl()]),
            InputMapping::new(AppEvent::B, lmb(), vec![shift()]),
            InputMapping::new(AppEvent::C, lmb(), vec![ctrl(), alt()]),
            InputMapping::new(AppEvent::A, lmb(), vec![ctrl()]),
            InputMapping::new(AppEvent::D, rmb(), vec![ctrl()]),
            InputMapping::new(AppEvent::E, cool_gesture(), vec![]),
            InputMapping::new(AppEvent::F, smart_gesture(), vec![]),
        ],
        events: Vec::new(),
    };

    let mut context = context.process(CombinedEvent { timestamp: 1000, modifiers: Arc::new(Modifiers::default()), input: lmb() });
    assert_eq!(emitted(&context), vec![]);
    context.events.clear();

    let mut context = context.process(CombinedEvent { timestamp: 1000, modifiers: Arc::new(Modifiers::default()), input: rmb() });
    assert_eq!(emitted(&context), vec![]);
    context.events.clear();

    let mut context = context.process(CombinedEvent {
        timestamp: 1000,
        modifiers: Arc::new(Modifiers { buttons: vec![ButtonKind::KeyboardKey(KeyboardKey::LeftCtrl)], axes: Vec::new() }),
        input: lmb(),
    });
    assert_eq!(emitted(&context), vec![AppEvent::A]);
    assert_eq!(context.events[0].timestamp, 1000);
    context.events.clear();

    let mut context = context.process(CombinedEvent {
        timestamp: 1000,
        modifiers: Arc::new(Modifiers {
            buttons: vec![ButtonKind::KeyboardKey(KeyboardKey::LeftCtrl), ButtonKind::KeyboardKey(KeyboardKey::LeftAlt)],
            axes: Vec::new(),
        }),
        input: lmb(),
    });
    assert_eq!(emitted(&context), vec![AppEvent::C]);
    context.events.clear();

    let mut context = context.process(CombinedEvent {
        timestamp: 1000,
        modifiers: Arc::new(Modifiers {
            buttons: vec![ButtonKind::KeyboardKey(KeyboardKey::LeftCtrl), ButtonKind::KeyboardKey(KeyboardKey::LeftShift)],
            axes: Vec::new(),
        }),
        input: lmb(),
    });
    assert_eq!(emitted(&context), vec![]);
    context.events.clear();

    let mut context = context.process(CombinedEvent {
        timestamp: 1000,
        modifiers: Arc::new(Modifiers { buttons: vec![ButtonKind::KeyboardKey(KeyboardKey::LeftShift)], axes: Vec::new() }),
        input: lmb(),
    });
    assert_eq!(emitted(&context), vec![AppEvent::B]);
    context.events.clear();

    let mut context = context.process(CombinedEvent {
        timestamp: 1000,
        modifiers: Arc::new(Modifiers { buttons: Vec::new(), axes: Vec::new() }),
        input: cool_gesture(),
    });
    assert_eq!(emitted(&context), vec![AppEvent::E]);
    context.events.clear();

    let mut context = context.process(CombinedEvent {
        timestamp: 1000,
        modifiers: Arc::new(Modifiers { buttons: Vec::new(), axes: Vec::new() }),
        input: smart_gesture(),
    });
    assert_eq!(emitted(&context), vec![AppEvent::F]);
    context.events.clear();
}

fn filter(buttons: Vec<ButtonKind>) -> ModifiersFilter {
    ModifiersFilter { buttons, axes_ranges: Vec::new() }
}

#[test]
fn select_single_match() {
    let modifiers = Modifiers { buttons: vec![ctrl()], axes: Vec::new() };
    let chosen = select_mapped_event(&modifiers, vec![(1, filter(vec![shift()])), (2, filter(vec![ctrl()]))]);
    assert_eq!(chosen, Some(2));
    let none = select_mapped_event(&modifiers, vec![(1, filter(vec![shift()]))]);
    assert_eq!(none, None);
    let empty = select_mapped_event::<u8>(&modifiers, Vec::new());
    assert_eq!(empty, None);
}

#[test]
fn select_prefers_more_buttons_and_refuses_ties() {
    let modifiers = Modifiers { buttons: vec![ctrl(), shift(), alt()], axes: Vec::new() };
    let chosen = select_mapped_event(
        &modifiers,
        vec![(1, filter(vec![])), (2, filter(vec![ctrl(), shift()])), (3, filter(vec![ctrl()]))],
    );
    assert_eq!(chosen, Some(2));
    let tie = select_mapped_event(&modifiers, vec![(1, filter(vec![ctrl()])), (2, filter(vec![shift()]))]);
    assert_eq!(tie, None);
    let same = select_mapped_event(&modifiers, vec![(1, filter(vec![ctrl()])), (2, filter(vec![ctrl()]))]);
    assert_eq!(same, Some(1));
}
