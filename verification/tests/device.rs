use stm32f30x_hal::device::Peripherals;
use stm32f30x_hal::flash::FlashExt;
use stm32f30x_hal::gpio::{GpioExt, PortA, PortB, PortC, PortD, PortE, PortF};
use stm32f30x_hal::rcc::RccExt;

#[test]
fn each_block_is_handed_out_once() {
    let mut device = Peripherals::new();
    assert!(device.flash().is_some());
    assert!(device.flash().is_none());
    assert!(device.rcc().is_some());
    assert!(device.rcc().is_none());
    assert!(device.gpio::<PortA>().is_some());
    assert!(device.gpio::<PortA>().is_none());
    assert!(device.gpio::<PortB>().is_some());
    assert!(device.gpio::<PortC>().is_some());
    assert!(device.gpio::<PortD>().is_some());
    assert!(device.gpio::<PortE>().is_some());
    assert!(device.gpio::<PortF>().is_some());
    assert!(device.gpio::<PortB>().is_none());
    assert!(device.gpio::<PortC>().is_none());
    assert!(device.gpio::<PortD>().is_none());
    assert!(device.gpio::<PortE>().is_none());
    assert!(device.gpio::<PortF>().is_none());
    assert!(device.flash().is_none());
    assert!(device.rcc().is_none());
}

#[test]
fn blocks_leave_in_any_order() {
    let mut device = Peripherals::new();
    assert!(device.gpio::<PortF>().is_some());
    assert!(device.rcc().is_some());
    assert!(device.gpio::<PortA>().is_some());
    assert!(device.flash().is_some());
    assert!(device.gpio::<PortF>().is_none());
    assert!(device.gpio::<PortE>().is_some());
}

#[test]
fn port_cannot_be_split_twice() {
    let mut device = Peripherals::new();
    let mut rcc = device.rcc().unwrap().constrain();
    let port = device.gpio::<PortC>().unwrap();
    let parts = port.split(&mut rcc.ahb);
    assert!(parts.pin0.is_some());
    // the port has left the device: there is nothing to split a second time
    assert!(device.gpio::<PortC>().is_none());
}

#[test]
fn constrained_rcc_starts_empty() {
    let mut device = Peripherals::new();
    let rcc = device.rcc().unwrap().constrain();
    for port in 0u8..=255 {
        assert!(!rcc.ahb.gpio_enabled(port));
    }
    assert_eq!(rcc.cfgr.solve().unwrap().sysclk, 8_000_000);
    let flash = device.flash().unwrap().constraint();
    assert_eq!(flash.acr.latency(), 0);
}
