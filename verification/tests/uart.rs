use custom_controller::uart::sensor_ports::{on_sensor_frame, rx_action, RxAction, SensorPortId, RX_BUFFER_LEN};
use custom_controller::uart::{link_config, DataBits, Parity, StopBits};

#[test]
fn links_run_9600_8n1() {
    let c = link_config();
    assert_eq!(c.baudrate, 9600);
    assert_eq!(c.data_bits, DataBits::DataBits8);
    assert_eq!(c.stop_bits, StopBits::Stop1);
    assert_eq!(c.parity, Parity::ParityNone);
}

#[test]
fn empty_read_is_skipped() {
    assert_eq!(rx_action::<()>(&Ok(0)), RxAction::Idle);
}

#[test]
fn non_empty_read_is_delivered() {
    assert_eq!(rx_action::<()>(&Ok(1)), RxAction::Deliver(1));
    assert_eq!(rx_action::<()>(&Ok(RX_BUFFER_LEN)), RxAction::Deliver(128));
}

#[test]
fn read_error_is_reported() {
    assert_eq!(rx_action::<&str>(&Err("overrun")), RxAction::Fault);
}

#[test]
fn sensor_frames_are_accepted() {
    on_sensor_frame(SensorPortId::Uart4, &[1, 2, 3]);
    on_sensor_frame(SensorPortId::Usart6, &[]);
}
