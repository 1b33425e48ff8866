use stm32f30x_hal::device::Peripherals;
use stm32f30x_hal::flash::{FlashExt, ACR};
use stm32f30x_hal::rcc::{HseBypass, HseDivider, RccExt, CFGR};
use stm32f30x_hal::sequencer::{Action, Event, Phase, Sequencer};
use stm32f30x_hal::time::Hertz;

fn parts() -> (CFGR, ACR) {
    let mut device = Peripherals::new();
    let cfgr = device.rcc().unwrap().constrain().cfgr;
    let acr = device.flash().unwrap().constraint().acr;
    (cfgr, acr)
}

/// Drives the sequencer with flags that are set at once, and collects the actions up
/// to `Finished`.
fn run_ready(sequencer: &mut Sequencer) -> Vec<Action> {
    let mut actions: Vec<Action> = Vec::new();
    let mut event = Event::Performed;
    for _ in 0..20 {
        let action = sequencer.step(event);
        actions.push(action);
        event = match action {
            Action::PollHseReady | Action::PollPllReady => Event::Ready,
            Action::Finished => return actions,
            _ => Event::Performed,
        };
    }
    panic!("the sequencer did not finish");
}

#[test]
fn fresh_flash_has_no_wait_states() {
    let (_, acr) = parts();
    assert_eq!(acr.latency(), 0);
}

#[test]
fn empty_request_switches_without_oscillator_or_pll() {
    let (cfgr, mut acr) = parts();
    let mut sequencer = cfgr.freeze(&mut acr);
    assert_eq!(acr.latency(), 0);
    assert_eq!(sequencer.current_phase(), Phase::Idle);
    assert_eq!(
        run_ready(&mut sequencer),
        vec![
            Action::SetFlashLatency { bits: 0 },
            Action::SwitchClock {
                keep: false,
                sw: 0b00,
                hpre_bits: 0b0111,
                ppre1_bits: 0b011,
                ppre2_bits: 0b011,
            },
            Action::Finished,
        ]
    );
    assert_eq!(sequencer.current_phase(), Phase::Frozen);
    let clocks = sequencer.clocks().unwrap();
    assert_eq!(clocks.sysclk(), Hertz(8_000_000));
    assert_eq!(clocks.hclk(), Hertz(8_000_000));
    assert_eq!(clocks.pclk1(), Hertz(8_000_000));
    assert_eq!(clocks.pclk2(), Hertz(8_000_000));
    assert_eq!(clocks.ppre1(), 1);
    assert_eq!(clocks.ppre2(), 1);
}

#[test]
fn pll_on_the_internal_oscillator() {
    let (cfgr, mut acr) = parts();
    let mut sequencer = cfgr
        .sysclk(Hertz(64_000_000))
        .hclk(Hertz(32_000_000))
        .pclk1(Hertz(8_000_000))
        .pclk2(Hertz(16_000_000))
        .freeze(&mut acr);
    assert_eq!(acr.latency(), 2);
    assert_eq!(
        run_ready(&mut sequencer),
        vec![
            Action::SetFlashLatency { bits: 2 },
            Action::ConfigurePll {
                from_hse: false,
                mul_bits: 14,
            },
            Action::EnablePll,
            Action::PollPllReady,
            Action::SwitchClock {
                keep: true,
                sw: 0b10,
                hpre_bits: 0b1000,
                ppre1_bits: 0b101,
                ppre2_bits: 0b100,
            },
            Action::Finished,
        ]
    );
    let clocks = sequencer.clocks().unwrap();
    assert_eq!(clocks.sysclk(), Hertz(64_000_000));
    assert_eq!(clocks.hclk(), Hertz(32_000_000));
    assert_eq!(clocks.pclk1(), Hertz(8_000_000));
    assert_eq!(clocks.pclk2(), Hertz(16_000_000));
    assert_eq!(clocks.ppre1(), 4);
    assert_eq!(clocks.ppre2(), 2);
}

#[test]
fn pll_on_the_external_oscillator() {
    let (cfgr, mut acr) = parts();
    let mut sequencer = cfgr
        .hse(Hertz(16_000_000), HseDivider::DivideBy2, HseBypass::Enable)
        .sysclk(Hertz(72_000_000))
        .pclk1(Hertz(36_000_000))
        .freeze(&mut acr);
    assert_eq!(acr.latency(), 2);
    assert_eq!(
        run_ready(&mut sequencer),
        vec![
            Action::SetFlashLatency { bits: 2 },
            Action::EnableHse { bypass: true },
            Action::PollHseReady,
            Action::SetHsePrediv { bits: 1 },
            Action::ConfigurePll {
                from_hse: true,
                mul_bits: 7,
            },
            Action::EnablePll,
            Action::PollPllReady,
            Action::SwitchClock {
                keep: true,
                sw: 0b10,
                hpre_bits: 0b0111,
                ppre1_bits: 0b100,
                ppre2_bits: 0b011,
            },
            Action::DisableHsi,
            Action::Finished,
        ]
    );
    assert_eq!(sequencer.clocks().unwrap().sysclk(), Hertz(72_000_000));
}

#[test]
fn external_oscillator_without_pll() {
    let (cfgr, mut acr) = parts();
    let mut sequencer = cfgr
        .hse(Hertz(16_000_000), HseDivider::DivideBy16, HseBypass::Disable)
        .freeze(&mut acr);
    assert_eq!(acr.latency(), 0);
    assert_eq!(
        run_ready(&mut sequencer),
        vec![
            Action::SetFlashLatency { bits: 0 },
            Action::EnableHse { bypass: false },
            Action::PollHseReady,
            Action::SetHsePrediv { bits: 15 },
            Action::SwitchClock {
                keep: false,
                sw: 0b01,
                hpre_bits: 0b0111,
                ppre1_bits: 0b011,
                ppre2_bits: 0b011,
            },
            Action::DisableHsi,
            Action::Finished,
        ]
    );
    assert_eq!(sequencer.clocks().unwrap().sysclk(), Hertz(2_000_000));
}

#[test]
fn flags_are_read_until_they_are_set() {
    let (cfgr, mut acr) = parts();
    let mut sequencer = cfgr
        .hse(Hertz(8_000_000), HseDivider::NoDivision, HseBypass::Disable)
        .sysclk(Hertz(24_000_000))
        .freeze(&mut acr);
    assert_eq!(
        sequencer.step(Event::Performed),
        Action::SetFlashLatency { bits: 0 }
    );
    assert_eq!(sequencer.current_phase(), Phase::LatencyRaised);
    assert_eq!(
        sequencer.step(Event::Performed),
        Action::EnableHse { bypass: false }
    );
    assert_eq!(sequencer.current_phase(), Phase::HseEnabled);
    assert_eq!(sequencer.step(Event::Performed), Action::PollHseReady);
    assert_eq!(sequencer.current_phase(), Phase::HsePolled);
    for _ in 0..5 {
        assert_eq!(sequencer.step(Event::NotReady), Action::PollHseReady);
        assert_eq!(sequencer.current_phase(), Phase::HsePolled);
    }
    // a report that is no answer to the question has the question asked again
    assert_eq!(sequencer.step(Event::Performed), Action::PollHseReady);
    assert_eq!(sequencer.current_phase(), Phase::HsePolled);
    assert_eq!(
        sequencer.step(Event::Ready),
        Action::SetHsePrediv { bits: 0 }
    );
    assert_eq!(sequencer.current_phase(), Phase::PredivSet);
    assert_eq!(
        sequencer.step(Event::Performed),
        Action::ConfigurePll {
            from_hse: true,
            mul_bits: 1,
        }
    );
    assert_eq!(sequencer.current_phase(), Phase::PllConfigured);
    assert_eq!(sequencer.step(Event::Performed), Action::EnablePll);
    assert_eq!(sequencer.current_phase(), Phase::PllEnabled);
    assert_eq!(sequencer.step(Event::Performed), Action::PollPllReady);
    assert_eq!(sequencer.current_phase(), Phase::PllPolled);
    for _ in 0..5 {
        assert_eq!(sequencer.step(Event::NotReady), Action::PollPllReady);
        assert_eq!(sequencer.current_phase(), Phase::PllPolled);
    }
    assert_eq!(
        sequencer.step(Event::Ready),
        Action::SwitchClock {
            keep: true,
            sw: 0b10,
            hpre_bits: 0b0111,
            ppre1_bits: 0b011,
            ppre2_bits: 0b011,
        }
    );
    assert_eq!(sequencer.current_phase(), Phase::Switched);
    assert_eq!(sequencer.step(Event::Performed), Action::DisableHsi);
    assert_eq!(sequencer.current_phase(), Phase::HsiDisabled);
    assert!(sequencer.clocks().is_none());
    assert_eq!(sequencer.step(Event::Performed), Action::Finished);
    assert_eq!(sequencer.current_phase(), Phase::Frozen);
    assert!(sequencer.clocks().is_some());
}

#[test]
fn clocks_come_only_when_everything_is_done() {
    let (cfgr, mut acr) = parts();
    let mut sequencer = cfgr.sysclk(Hertz(16_000_000)).freeze(&mut acr);
    let mut event = Event::Performed;
    loop {
        assert!(sequencer.clocks().is_none());
        let action = sequencer.step(event);
        if action == Action::Finished {
            break;
        }
        event = Event::Ready;
    }
    assert_eq!(sequencer.clocks().unwrap().sysclk(), Hertz(16_000_000));
}

#[test]
fn finished_sequencer_stays_finished() {
    let (cfgr, mut acr) = parts();
    let mut sequencer = cfgr.freeze(&mut acr);
    run_ready(&mut sequencer);
    for event in [Event::Performed, Event::Ready, Event::NotReady] {
        assert_eq!(sequencer.step(event), Action::Finished);
        assert_eq!(sequencer.current_phase(), Phase::Frozen);
        assert_eq!(sequencer.clocks().unwrap().sysclk(), Hertz(8_000_000));
    }
}

#[test]
fn wait_states_are_raised_before_the_switch_in_every_band() {
    let bands = [
        (24_000_000u32, 0u8),
        (48_000_000, 1),
        (64_000_000, 2),
    ];
    for (sysclk, latency) in bands {
        let (cfgr, mut acr) = parts();
        let mut sequencer = cfgr
            .sysclk(Hertz(sysclk))
            .pclk1(Hertz(sysclk / 2))
            .freeze(&mut acr);
        assert_eq!(acr.latency(), latency);
        let actions = run_ready(&mut sequencer);
        assert_eq!(actions[0], Action::SetFlashLatency { bits: latency });
        let switches: Vec<usize> = (0..actions.len())
            .filter(|&i| matches!(actions[i], Action::SwitchClock { .. }))
            .collect();
        assert_eq!(switches.len(), 1);
        assert!(switches[0] > 0);
        for action in &actions[1..] {
            assert!(!matches!(action, Action::SetFlashLatency { .. }));
        }
        // the handle still holds what was set
        assert_eq!(acr.latency(), latency);
    }
}

#[test]
fn phases_never_come_back() {
    let order = [
        Phase::Idle,
        Phase::LatencyRaised,
        Phase::HseEnabled,
        Phase::HsePolled,
        Phase::PredivSet,
        Phase::PllConfigured,
        Phase::PllEnabled,
        Phase::PllPolled,
        Phase::Switched,
        Phase::HsiDisabled,
        Phase::Frozen,
    ];
    let rank = |phase: Phase| order.iter().position(|&p| p == phase).unwrap();
    let events = [Event::NotReady, Event::Performed, Event::Ready];
    let (cfgr, mut acr) = parts();
    let mut sequencer = cfgr
        .hse(Hertz(8_000_000), HseDivider::NoDivision, HseBypass::Disable)
        .sysclk(Hertz(32_000_000))
        .freeze(&mut acr);
    let mut last: usize = 0;
    for turn in 0..60usize {
        sequencer.step(events[turn % 3]);
        let now: usize = rank(sequencer.current_phase());
        assert!(now >= last);
        last = now;
    }
    assert_eq!(sequencer.current_phase(), Phase::Frozen);
}
