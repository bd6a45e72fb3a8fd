use input_flow::cons_ext::ConsWithLast;
use input_flow::context::Context;
use input_flow::processor::Processor;

#[test]
fn cons_ext_test() {
    let value = (1, (2, ()));
    let value = value.with_last(3);
    let value = value.with_last(4);
    let value = value.with_last(5);
    assert_eq!(value, (1, (2, (3, (4, (5, ()))))));
}

#[derive(Debug, Default)]
pub struct ModifiersProcessor;

#[derive(Clone, Debug, Default, PartialEq)]
pub struct ModifiersState(u32);

#[derive(Clone, Debug, Default, PartialEq)]
pub struct Switch(u32);

#[derive(Debug, Default)]
pub struct TimedProcessor;

#[derive(Clone, Debug, Default, PartialEq)]
pub struct TimedState(u32);

impl<T> Processor<(Switch, ModifiersState, T)> for ModifiersProcessor {
    type Output = (Switch, ModifiersState, T);
    fn exec(&self, input: (Switch, ModifiersState, T)) -> Self::Output {
        (Switch(input.0 .0), ModifiersState(input.1 .0 + input.0 .0), input.2)
    }
}

impl<T> Processor<(Switch, TimedState, T)> for TimedProcessor {
    type Output = (u32, TimedState, T);
    fn exec(&self, input: (Switch, TimedState, T)) -> Self::Output {
        (32, TimedState(input.1 .0 + input.0 .0), input.2)
    }
}

#[derive(Debug, Default)]
pub struct FilterByModifiers;

impl Processor<(Switch, ModifiersState, (TimedState, (u32, u32)))> for FilterByModifiers {
    type Output = (Switch, TimedState, (ModifiersState, (u32, u32)));
    fn exec(&self, input: (Switch, ModifiersState, (TimedState, (u32, u32)))) -> Self::Output {
        (input.0, input.2 .0, (input.1, input.2 .1))
    }
}

type Chain = ((ModifiersProcessor, FilterByModifiers), TimedProcessor);

#[test]
fn processor_test() {
    let output = Chain::default().exec((Switch(10), ModifiersState(100), (TimedState(1000), (123, 234))));
    println!("{:?}", output);
    assert_eq!(output, (32, TimedState(1010), (ModifiersState(110), (123, 234))));
}

#[test]
fn unit_processor_passes_input_through() {
    assert_eq!(().exec((1, "a")), (1, "a"));
    let chain = ((), ((), TimedProcessor));
    assert_eq!(chain.exec((Switch(1), TimedState(2), ())), (32, TimedState(3), ()));
}

#[test]
fn context_split_and_map() {
    let context = Context::new(1u32, "event");
    assert_eq!(context.split(), (1, "event"));
    let context = context.map_state(|s| s + 1);
    assert_eq!(context.state, 2);
    let context = context.map_event(|e: &str| e.len());
    assert_eq!(context.event, 5);
    let context = context.map(|s, e| (e, s));
    assert_eq!((context.state, context.event), (5, 2));
}
