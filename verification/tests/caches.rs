use input_flow::aggregate_timed_event::{AggregateTimedEvent, AggregateTimedEventKind, IntoAggregate};
use input_flow::device_state::DeviceState;
use input_flow::global_mapping::GlobalMapping;
use input_flow::global_mapping_cache::GlobalMappingCache;
use input_flow::global_state::{GlobalState, GlobalStateWithEventResult};
use input_flow::mapping_cache::MappingCache;
use input_flow::mapping_modifiers_cache::MappingModifiersCache;
use input_flow::modifiers_cache::ModifiersCache;
use input_flow::switch_event::{CoordsEvent, SwitchEvent, TriggerEvent};
use input_flow::timed::{DelayedTimedEvent, DelayedTimedEventKind, TimedEvent, TimedEventKind};

#[test]
fn modifier_caches_hold_each_switch_once() {
    let cache = MappingModifiersCache::from_switches(vec![3u32, 1, 3, 2, 1]);
    let mut switches: Vec<u32> = cache.switches().iter().cloned().collect();
    switches.sort();
    assert_eq!(switches, vec![1, 2, 3]);
    assert!(MappingModifiersCache::<u32>::default().switches().is_empty());

    let cache = ModifiersCache::from_switches(vec![5u64, 5]);
    assert_eq!(cache.switches().len(), 1);
    assert!(cache.switches().contains(&5));
    assert!(ModifiersCache::<u64>::default().switches().is_empty());
}

#[test]
fn global_mapping_cache_parts() {
    let cache = GlobalMappingCache::new("keyboard", "mouse", 7);
    assert_eq!(*cache.keyboard(), "keyboard");
    assert_eq!(*cache.mouse(), "mouse");
    assert_eq!(*cache.modifiers(), 7);
    let mapping = GlobalMapping { keyboard: 1, mouse: 2 };
    assert_eq!((mapping.keyboard, mapping.mouse), (1, 2));
    let tables = MappingCache { press: 1, release: 2, long_press: 3, click_exact: 4, trigger: 5, coords: 6 };
    assert_eq!(tables.coords, 6);
}

#[test]
fn states_are_built_from_their_parts() {
    let device = DeviceState::new(1, 2, 3, 4, 5, 6);
    assert_eq!(
        (device.modifiers, device.coords_state, device.timed_state, device.long_press_scheduler, device.click_exact_scheduler, device.pointer_state),
        (1, 2, 3, 4, 5, 6)
    );
    let global = GlobalState::new(1, 2, 3, 4, 5, 6, 7, 8, 9, 10, 11);
    assert_eq!(global.mouse_pointer_state, 11);
    assert_eq!(global.keyboard_click_exact_scheduler, 7);
    let result = GlobalStateWithEventResult { scheduled: Some(10u64), bindings: vec![1] };
    assert_eq!(result.scheduled, Some(10));
}

#[test]
fn switch_trigger_and_coords_events() {
    let ev = SwitchEvent::new(100u64, 'a');
    assert_eq!((ev.time, ev.switch), (100, 'a'));
    let ev = TriggerEvent::new(200u64, "wheel");
    assert_eq!((ev.time, ev.trigger), (200, "wheel"));
    let ev = CoordsEvent::new(300u64, (1, 2));
    assert_eq!((ev.time, ev.coords), (300, (1, 2)));
}

#[test]
fn aggregate_events_keep_switch_and_count() {
    let ev = TimedEvent::new(4u8, TimedEventKind::LongClick, 2).into_aggregate();
    assert_eq!(ev, AggregateTimedEvent { switch: 4, kind: AggregateTimedEventKind::LongClick, num_switches: 2 });
    let ev = DelayedTimedEvent::new(5u8, DelayedTimedEventKind::ClickExact, 3).into_aggregate();
    assert_eq!(ev, AggregateTimedEvent { switch: 5, kind: AggregateTimedEventKind::ClickExact, num_switches: 3 });
    assert_eq!(AggregateTimedEventKind::from(TimedEventKind::Click), AggregateTimedEventKind::Click);
    assert_eq!(AggregateTimedEventKind::from(DelayedTimedEventKind::LongPress), AggregateTimedEventKind::LongPress);
    assert_eq!(
        AggregateTimedEventKind::from(DelayedTimedEventKind::LongClickExact),
        AggregateTimedEventKind::LongClickExact
    );
}
