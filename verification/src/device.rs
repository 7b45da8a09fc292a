//! The F1s V3 protocol handler: vibration commands, sensor reads and the
//! bookkeeping of sensor subscriptions.

use vstd::prelude::*;
use crate::decode::{decode_frame, frame_reading};
use crate::protocol::{
    DeviceError, Endpoint, HardwareReadCmd, HardwareSubscribeCmd, HardwareUnsubscribeCmd,
    HardwareWriteCmd, InputReading, InputType, InputTypeReading,
};

verus! {

/// Read length, in bytes, asked for on every sensor or security read.
pub const READ_LENGTH: u32 = 128;

/// Timeout, in milliseconds, of every sensor or security read.
pub const READ_TIMEOUT_MS: u32 = 500;

/// The endpoint a sensor type is read from and notified on, if the device
/// has that sensor.
pub open spec fn sensor_endpoint(sensor: InputType) -> Option<Endpoint> {
    match sensor {
        InputType::Pressure => Some(Endpoint::RxPressure),
        InputType::Depth => Some(Endpoint::RxTouch),
        InputType::Accelerometer => Some(Endpoint::RxAccel),
        InputType::Button => Some(Endpoint::Generic1),
        _ => None,
    }
}

/// The endpoint of a sensor type; see `sensor_endpoint`.
pub fn endpoint_for_sensor(sensor: InputType) -> (r: Option<Endpoint>)
    ensures
        r == sensor_endpoint(sensor),
{
    match sensor {
        InputType::Pressure => Some(Endpoint::RxPressure),
        InputType::Depth => Some(Endpoint::RxTouch),
        InputType::Accelerometer => Some(Endpoint::RxAccel),
        InputType::Button => Some(Endpoint::Generic1),
        _ => None,
    }
}

/// The sensor whose notifications arrive on an endpoint, if any.
pub open spec fn endpoint_sensor(endpoint: Endpoint) -> Option<InputType> {
    match endpoint {
        Endpoint::RxPressure => Some(InputType::Pressure),
        Endpoint::RxTouch => Some(InputType::Depth),
        Endpoint::RxAccel => Some(InputType::Accelerometer),
        Endpoint::Generic1 => Some(InputType::Button),
        _ => None,
    }
}

/// The slot that remembers the feature index of a sensor's subscription.
pub open spec fn sensor_slot(sensor: InputType) -> int {
    match sensor {
        InputType::Pressure => 0,
        InputType::Depth => 1,
        InputType::Accelerometer => 2,
        _ => 3,
    }
}

/// The error a read reports when the frame of `sensor` is not usable.
pub open spec fn frame_error(sensor: InputType) -> DeviceError {
    match sensor {
        InputType::Pressure => DeviceError::InvalidPressureData,
        InputType::Depth => DeviceError::InvalidDepthData,
        InputType::Accelerometer => DeviceError::InvalidAccelData,
        _ => DeviceError::InvalidButtonData,
    }
}

/// The subscription bit of a feature index.
pub open spec fn sensor_bit(feature_index: u32) -> u8 {
    1u8 << feature_index
}

/// Whether the subscription mask records feature index `i` as subscribed.
pub open spec fn is_subscribed(mask: u8, i: u32) -> bool {
    mask & sensor_bit(i) != 0
}

/// The bytes of the vibration command for the given motor speeds.
pub open spec fn vibrate_payload(speeds: Seq<u8>) -> Seq<u8> {
    seq![1u8, speeds[0], speeds[1]]
}

/// The state of a handler, as plain values.
pub struct LeloF1sV3View {
    /// Last speed of each of the two motors.
    pub speeds: Seq<u8>,
    /// Whether writes to the device wait for a response.
    pub write_with_response: bool,
    /// One bit per subscribed feature index.
    pub subscribed_sensors: u8,
    /// Feature index of the latest subscription of pressure, depth,
    /// accelerometer and button, in that order.
    pub sensor_indices: Seq<u32>,
}

/// The state a fresh handler starts in.
pub open spec fn initial_state(write_with_response: bool) -> LeloF1sV3View {
    LeloF1sV3View {
        speeds: seq![0u8, 0u8],
        write_with_response,
        subscribed_sensors: 0,
        sensor_indices: seq![0u32, 0u32, 0u32, 0u32],
    }
}

/// The state after motor `feature_index` is set to `speed` (kept modulo 256).
pub open spec fn vibrate_state(s: LeloF1sV3View, feature_index: u32, speed: u32) -> LeloF1sV3View {
    LeloF1sV3View { speeds: s.speeds.update(feature_index as int, (speed % 256) as u8), ..s }
}

/// The state after a subscription of `sensor` for `feature_index` is requested.
pub open spec fn subscribe_state(s: LeloF1sV3View, feature_index: u32, sensor: InputType) -> LeloF1sV3View {
    LeloF1sV3View {
        sensor_indices: s.sensor_indices.update(sensor_slot(sensor), feature_index),
        ..s
    }
}

/// The state after the device confirmed a subscription for `feature_index`.
pub open spec fn subscribed_state(s: LeloF1sV3View, feature_index: u32) -> LeloF1sV3View {
    LeloF1sV3View { subscribed_sensors: s.subscribed_sensors | sensor_bit(feature_index), ..s }
}

/// The state after `feature_index` is unsubscribed.
pub open spec fn unsubscribed_state(s: LeloF1sV3View, feature_index: u32) -> LeloF1sV3View {
    LeloF1sV3View { subscribed_sensors: s.subscribed_sensors & !sensor_bit(feature_index), ..s }
}

/// What a read of `sensor` answers, given the bytes the device returned.
pub open spec fn read_response(
    device_index: u32,
    feature_index: u32,
    sensor: InputType,
    d: Seq<u8>,
) -> Result<InputReading, DeviceError> {
    match frame_reading(sensor, d) {
        Some(reading) => Ok(InputReading { device_index, feature_index, reading }),
        None => Err(frame_error(sensor)),
    }
}

/// The reading a notification on `endpoint` carrying `d` produces, if any.
pub open spec fn notification_reading(
    s: LeloF1sV3View,
    device_index: u32,
    endpoint: Endpoint,
    d: Seq<u8>,
) -> Option<InputReading> {
    match endpoint_sensor(endpoint) {
        Some(sensor) => match frame_reading(sensor, d) {
            Some(reading) => Some(
                InputReading {
                    device_index,
                    feature_index: s.sensor_indices[sensor_slot(sensor)],
                    reading,
                },
            ),
            None => None,
        },
        None => None,
    }
}

/// How an input read is carried out.
#[derive(Debug)]
pub enum InputReadPlan {
    /// Read the given endpoint, then decode with `handle_input_read_response`.
    Read(HardwareReadCmd),
    /// Ask the generic battery-level reader.
    BatteryLevel,
}

/// How an input subscription is carried out.
#[derive(Debug)]
pub struct InputSubscribePlan {
    /// The subscription to send to the device.
    pub command: HardwareSubscribeCmd,
    /// Whether no subscription is active yet, so the notification listener
    /// has to be started.
    pub start_listener: bool,
}

/// What the notification listener does with one event from the device.
#[derive(Clone, Copy, Debug, PartialEq, Eq, Structural)]
pub enum ListenerStep {
    /// Nobody listens for readings any more: the listener ends.
    Stop,
    /// Pass this reading on to the listeners.
    Emit(InputReading),
    /// Nothing to pass on; wait for the next event.
    Skip,
}

/// The protocol handler of one connected F1s V3.
pub struct LeloF1sV3 {
    speeds: [u8; 2],
    write_with_response: bool,
    subscribed_sensors: u8,
    sensor_indices: [u32; 4],
}

impl View for LeloF1sV3 {
    type V = LeloF1sV3View;

    closed spec fn view(&self) -> LeloF1sV3View {
        LeloF1sV3View {
            speeds: self.speeds@,
            write_with_response: self.write_with_response,
            subscribed_sensors: self.subscribed_sensors,
            sensor_indices: self.sensor_indices@,
        }
    }
}

impl LeloF1sV3 {
    /// A handler with both motors stopped and no subscriptions.
    pub fn new(write_with_response: bool) -> (r: Self)
        ensures
            r@ == initial_state(write_with_response),
    {
        let r = LeloF1sV3 {
            speeds: [0u8, 0u8],
            write_with_response,
            subscribed_sensors: 0,
            sensor_indices: [0u32, 0u32, 0u32, 0u32],
        };
        assert(r@.speeds =~= seq![0u8, 0u8]);
        assert(r@.sensor_indices =~= seq![0u32, 0u32, 0u32, 0u32]);
        r
    }

    /// Sets motor `feature_index` to `speed` (truncated to a byte) and
    /// builds the command that sends both motor speeds to the device.
    pub fn handle_output_vibrate_cmd(
        &mut self,
        feature_index: u32,
        feature_id: uuid::Uuid,
        speed: u32,
    ) -> (r: Result<Vec<HardwareWriteCmd>, DeviceError>)
        requires
            feature_index < 2,
        ensures
            final(self)@ == vibrate_state(old(self)@, feature_index, speed),
            r matches Ok(cmds) && cmds@.len() == 1 && ({
                let cmd = cmds@[0];
                &&& cmd.feature_id == feature_id
                &&& cmd.endpoint == Endpoint::Tx
                &&& cmd.data@ == vibrate_payload(final(self)@.speeds)
                &&& cmd.write_with_response == old(self)@.write_with_response
            }),
    {
        let byte = speed as u8;
        assert(speed as u8 == speed % 256) by (bit_vector);
        self.speeds[feature_index as usize] = byte;
        let mut data: Vec<u8> = Vec::new();
        data.push(1u8);
        data.push(self.speeds[0]);
        data.push(self.speeds[1]);
        let cmd = HardwareWriteCmd {
            feature_id,
            endpoint: Endpoint::Tx,
            data,
            write_with_response: self.write_with_response,
        };
        let mut cmds: Vec<HardwareWriteCmd> = Vec::new();
        cmds.push(cmd);
        assert(self@.speeds =~= old(self)@.speeds.update(feature_index as int, (speed % 256) as u8));
        assert(cmds@[0].data@ =~= vibrate_payload(self@.speeds));
        Ok(cmds)
    }

    /// Plans a read of `sensor`: its endpoint for the four sensors of the
    /// device, the generic battery reader for the battery, and an error for
    /// anything else.
    pub fn handle_input_read_cmd(&self, feature_id: uuid::Uuid, sensor: InputType) -> (r: Result<
        InputReadPlan,
        DeviceError,
    >)
        ensures
            sensor == InputType::Battery ==> r matches Ok(InputReadPlan::BatteryLevel),
            sensor_endpoint(sensor) matches Some(endpoint) ==> r matches Ok(InputReadPlan::Read(cmd))
                && cmd.feature_id == feature_id && cmd.endpoint == endpoint && cmd.length
                == READ_LENGTH && cmd.timeout_ms == READ_TIMEOUT_MS,
            sensor != InputType::Battery && sensor_endpoint(sensor) is None ==> r == Err::<
                InputReadPlan,
                DeviceError,
            >(DeviceError::UnsupportedSensor),
    {
        let endpoint = match sensor {
            InputType::Pressure => Endpoint::RxPressure,
            InputType::Depth => Endpoint::RxTouch,
            InputType::Accelerometer => Endpoint::RxAccel,
            InputType::Button => Endpoint::Generic1,
            InputType::Battery => {
                return Ok(InputReadPlan::BatteryLevel);
            },
            _ => {
                return Err(DeviceError::UnsupportedSensor);
            },
        };
        Ok(
            InputReadPlan::Read(
                HardwareReadCmd {
                    feature_id,
                    endpoint,
                    length: READ_LENGTH,
                    timeout_ms: READ_TIMEOUT_MS,
                },
            ),
        )
    }

    /// Decodes what the device answered to a read of `sensor`.
    pub fn handle_input_read_response(
        &self,
        device_index: u32,
        feature_index: u32,
        sensor: InputType,
        data: &[u8],
    ) -> (r: Result<InputReading, DeviceError>)
        requires
            sensor_endpoint(sensor) is Some,
        ensures
            r == read_response(device_index, feature_index, sensor, data@),
    {
        match decode_frame(sensor, data) {
            Some(reading) => Ok(InputReading { device_index, feature_index, reading }),
            None => Err(
                match sensor {
                    InputType::Pressure => DeviceError::InvalidPressureData,
                    InputType::Depth => DeviceError::InvalidDepthData,
                    InputType::Accelerometer => DeviceError::InvalidAccelData,
                    _ => DeviceError::InvalidButtonData,
                },
            ),
        }
    }

    /// Plans a subscription to `sensor` for `feature_index`, and records
    /// `feature_index` as the feature that the sensor's notifications are
    /// reported for.
    pub fn handle_input_subscribe_cmd(
        &mut self,
        feature_index: u32,
        feature_id: uuid::Uuid,
        sensor: InputType,
    ) -> (r: Result<InputSubscribePlan, DeviceError>)
        ensures
            sensor_endpoint(sensor) is None ==> r == Err::<InputSubscribePlan, DeviceError>(
                DeviceError::UnsupportedSensor,
            ) && final(self)@ == old(self)@,
            sensor_endpoint(sensor) matches Some(endpoint) ==> {
                &&& final(self)@ == subscribe_state(old(self)@, feature_index, sensor)
                &&& r matches Ok(plan)
                &&& plan.command.feature_id == feature_id
                &&& plan.command.endpoint == endpoint
                &&& plan.start_listener == (old(self)@.subscribed_sensors == 0)
            },
    {
        let (endpoint, idx) = match sensor {
            InputType::Pressure => (Endpoint::RxPressure, 0usize),
            InputType::Depth => (Endpoint::RxTouch, 1usize),
            InputType::Accelerometer => (Endpoint::RxAccel, 2usize),
            InputType::Button => (Endpoint::Generic1, 3usize),
            _ => {
                return Err(DeviceError::UnsupportedSensor);
            },
        };
        self.sensor_indices[idx] = feature_index;
        assert(self@.sensor_indices =~= old(self)@.sensor_indices.update(
            sensor_slot(sensor),
            feature_index,
        ));
        Ok(
            InputSubscribePlan {
                command: HardwareSubscribeCmd { feature_id, endpoint },
                start_listener: self.subscribed_sensors == 0,
            },
        )
    }

    /// Records that the device confirmed the subscription of `feature_index`.
    pub fn mark_input_subscribed(&mut self, feature_index: u32)
        requires
            feature_index < 8,
        ensures
            final(self)@ == subscribed_state(old(self)@, feature_index),
    {
        self.subscribed_sensors = self.subscribed_sensors | (1u8 << feature_index);
    }

    /// Forgets the subscription of `feature_index` and plans the matching
    /// unsubscription; other sensor types need nothing and change nothing.
    pub fn handle_input_unsubscribe_cmd(
        &mut self,
        feature_index: u32,
        feature_id: uuid::Uuid,
        sensor: InputType,
    ) -> (r: Option<HardwareUnsubscribeCmd>)
        requires
            sensor_endpoint(sensor) is Some ==> feature_index < 8,
        ensures
            sensor_endpoint(sensor) is None ==> r is None && final(self)@ == old(self)@,
            sensor_endpoint(sensor) matches Some(endpoint) ==> {
                &&& final(self)@ == unsubscribed_state(old(self)@, feature_index)
                &&& r matches Some(cmd)
                &&& cmd.feature_id == feature_id
                &&& cmd.endpoint == endpoint
            },
    {
        let endpoint = match sensor {
            InputType::Pressure => Endpoint::RxPressure,
            InputType::Depth => Endpoint::RxTouch,
            InputType::Accelerometer => Endpoint::RxAccel,
            InputType::Button => Endpoint::Generic1,
            _ => {
                return None;
            },
        };
        self.subscribed_sensors = self.subscribed_sensors & !(1u8 << feature_index);
        Some(HardwareUnsubscribeCmd { feature_id, endpoint })
    }

    /// Whether any sensor subscription is active.
    pub fn has_subscriptions(&self) -> (r: bool)
        ensures
            r == (self@.subscribed_sensors != 0),
    {
        self.subscribed_sensors != 0
    }

    /// Decides what the notification listener does with one event from the
    /// device: it stops once nobody listens for readings, and otherwise
    /// passes on the reading a notification carries, if any. `notification`
    /// is the endpoint and bytes of a notification, or `None` for any other
    /// event.
    pub fn listener_step(
        &self,
        device_index: u32,
        receiver_count: usize,
        notification: Option<(Endpoint, &[u8])>,
    ) -> (r: ListenerStep)
        ensures
            receiver_count == 0 ==> r == ListenerStep::Stop,
            receiver_count != 0 ==> r == match notification {
                Some((endpoint, data)) => match notification_reading(
                    self@,
                    device_index,
                    endpoint,
                    data@,
                ) {
                    Some(reading) => ListenerStep::Emit(reading),
                    None => ListenerStep::Skip,
                },
                None => ListenerStep::Skip,
            },
    {
        if receiver_count == 0 {
            return ListenerStep::Stop;
        }
        match notification {
            Some((endpoint, data)) => match self.decode_notification(device_index, endpoint, data) {
                Some(reading) => ListenerStep::Emit(reading),
                None => ListenerStep::Skip,
            },
            None => ListenerStep::Skip,
        }
    }

    /// Turns a notification from the device into a reading for the feature
    /// that the sensor was last subscribed for; notifications from other
    /// endpoints, and unusable frames, give nothing.
    pub fn decode_notification(&self, device_index: u32, endpoint: Endpoint, data: &[u8]) -> (r:
        Option<InputReading>)
        ensures
            r == notification_reading(self@, device_index, endpoint, data@),
    {
        let (sensor, idx) = match endpoint {
            Endpoint::RxPressure => (InputType::Pressure, 0usize),
            Endpoint::RxTouch => (InputType::Depth, 1usize),
            Endpoint::RxAccel => (InputType::Accelerometer, 2usize),
            Endpoint::Generic1 => (InputType::Button, 3usize),
            _ => {
                return None;
            },
        };
        match decode_frame(sensor, data) {
            Some(reading) => Some(
                InputReading { device_index, feature_index: self.sensor_indices[idx], reading },
            ),
            None => None,
        }
    }
}


/// A handler state has two motors and four sensor slots.
pub open spec fn state_valid(s: LeloF1sV3View) -> bool {
    s.speeds.len() == 2 && s.sensor_indices.len() == 4
}

/// Every handler's state is valid.
pub proof fn lemma_handler_state_valid(h: &LeloF1sV3)
    ensures
        state_valid(h@),
{
}

/// The sensors that the device has are exactly those with a notification
/// endpoint, and each endpoint belongs to one sensor.
pub proof fn law_sensor_endpoints_correspond(sensor: InputType, endpoint: Endpoint)
    ensures
        (sensor_endpoint(sensor) == Some(endpoint)) == (endpoint_sensor(endpoint) == Some(sensor)),
        sensor_endpoint(sensor) is Some ==> 0 <= sensor_slot(sensor) < 4,
{
}

/// The vibration command always carries the latest speed set for each
/// motor (modulo 256): setting one motor keeps the other's speed, and
/// setting the same speed twice changes nothing.
pub proof fn law_vibrate_keeps_latest_speeds(
    s: LeloF1sV3View,
    i: u32,
    a: u32,
    j: u32,
    b: u32,
)
    requires
        state_valid(s),
        i < 2,
        j < 2,
        i != j,
    ensures
        ({
            let t = vibrate_state(vibrate_state(s, i, a), j, b);
            &&& vibrate_payload(t.speeds)[0] == 1
            &&& vibrate_payload(t.speeds)[1 + i] == a % 256
            &&& vibrate_payload(t.speeds)[1 + j] == b % 256
        }),
        vibrate_state(vibrate_state(s, i, a), i, a) == vibrate_state(s, i, a),
        vibrate_state(s, i, a).subscribed_sensors == s.subscribed_sensors,
        vibrate_state(s, i, a).sensor_indices == s.sensor_indices,
{
    assert(vibrate_state(vibrate_state(s, i, a), i, a).speeds =~= vibrate_state(s, i, a).speeds);
}

/// The state after a sequence of motor settings, each a pair of motor index
/// and speed, applied in order.
pub open spec fn vibrate_all(s: LeloF1sV3View, calls: Seq<(u32, u32)>) -> LeloF1sV3View
    decreases calls.len(),
{
    if calls.len() == 0 {
        s
    } else {
        vibrate_state(vibrate_all(s, calls.drop_last()), calls.last().0, calls.last().1)
    }
}

/// The speed (modulo 256) last given to motor `m` in `calls`, or 0 if it was
/// never set.
pub open spec fn last_speed(calls: Seq<(u32, u32)>, m: u32) -> u8
    decreases calls.len(),
{
    if calls.len() == 0 {
        0
    } else if calls.last().0 == m {
        (calls.last().1 % 256) as u8
    } else {
        last_speed(calls.drop_last(), m)
    }
}

/// After any sequence of vibration calls on a fresh handler, the command
/// is the three bytes 0x01, then the speed last given to each motor (0 for a
/// motor never set), and the handler still writes with the response setting
/// it was made with; nothing else in its state changes.
pub proof fn law_vibrate_sequence(write_with_response: bool, calls: Seq<(u32, u32)>)
    requires
        forall|k: int| 0 <= k < calls.len() ==> #[trigger] calls[k].0 < 2,
    ensures
        ({
            let t = vibrate_all(initial_state(write_with_response), calls);
            &&& vibrate_payload(t.speeds) == seq![1u8, last_speed(calls, 0), last_speed(calls, 1)]
            &&& vibrate_payload(t.speeds).len() == 3
            &&& t.speeds.len() == 2
            &&& t.write_with_response == write_with_response
            &&& t.subscribed_sensors == 0
            &&& t.sensor_indices == initial_state(write_with_response).sensor_indices
        }),
    decreases calls.len(),
{
    let t = vibrate_all(initial_state(write_with_response), calls);
    if calls.len() == 0 {
        assert(vibrate_payload(t.speeds) =~= seq![1u8, 0u8, 0u8]);
    } else {
        let rest = calls.drop_last();
        assert forall|k: int| 0 <= k < rest.len() implies #[trigger] rest[k].0 < 2 by {
            assert(rest[k] == calls[k]);
        }
        law_vibrate_sequence(write_with_response, rest);
        assert(calls.last().0 < 2);
        assert(vibrate_payload(t.speeds) =~= seq![1u8, last_speed(calls, 0), last_speed(calls, 1)]);
    }
}

/// A notification of a subscribed sensor is reported for the feature index
/// of its latest subscription.
pub proof fn law_notification_uses_subscribed_feature(
    s: LeloF1sV3View,
    device_index: u32,
    feature_index: u32,
    sensor: InputType,
    d: Seq<u8>,
)
    requires
        state_valid(s),
        sensor_endpoint(sensor) is Some,
        frame_reading(sensor, d) is Some,
    ensures
        notification_reading(
            subscribe_state(s, feature_index, sensor),
            device_index,
            sensor_endpoint(sensor).unwrap(),
            d,
        ) == Some(
            InputReading { device_index, feature_index, reading: frame_reading(sensor, d).unwrap() },
        ),
{
}

/// A read and a notification of the same bytes agree: the read succeeds
/// exactly when the notification yields a reading, and then with the same
/// reading for the same feature.
pub proof fn law_read_and_notification_agree(
    s: LeloF1sV3View,
    device_index: u32,
    feature_index: u32,
    sensor: InputType,
    d: Seq<u8>,
)
    requires
        state_valid(s),
        sensor_endpoint(sensor) is Some,
    ensures
        ({
            let n = notification_reading(
                subscribe_state(s, feature_index, sensor),
                device_index,
                sensor_endpoint(sensor).unwrap(),
                d,
            );
            match read_response(device_index, feature_index, sensor, d) {
                Ok(r) => n == Some(r),
                Err(e) => n is None && e == frame_error(sensor),
            }
        }),
{
}

/// Subscribing a feature index marks it, and unsubscribing unmarks it;
/// neither touches the marks of the other feature indices.
pub proof fn law_subscription_marks(s: LeloF1sV3View, i: u32, j: u32)
    requires
        i < 8,
        j < 8,
        i != j,
    ensures
        is_subscribed(subscribed_state(s, i).subscribed_sensors, i),
        !is_subscribed(unsubscribed_state(s, i).subscribed_sensors, i),
        is_subscribed(subscribed_state(s, i).subscribed_sensors, j) == is_subscribed(
            s.subscribed_sensors,
            j,
        ),
        is_subscribed(unsubscribed_state(s, i).subscribed_sensors, j) == is_subscribed(
            s.subscribed_sensors,
            j,
        ),
{
    let m = s.subscribed_sensors;
    assert((m | (1u8 << i)) & (1u8 << i) != 0) by (bit_vector)
        requires
            i < 8,
    ;
    assert((m & !(1u8 << i)) & (1u8 << i) == 0) by (bit_vector)
        requires
            i < 8,
    ;
    assert(((m | (1u8 << i)) & (1u8 << j) != 0) == (m & (1u8 << j) != 0)) by (bit_vector)
        requires
            i < 8,
            j < 8,
            i != j,
    ;
    assert(((m & !(1u8 << i)) & (1u8 << j) != 0) == (m & (1u8 << j) != 0)) by (bit_vector)
        requires
            i < 8,
            j < 8,
            i != j,
    ;
}

/// Unsubscribing after subscribing the same feature index leaves the marks
/// as unsubscribing alone would, and the mask is empty exactly when no
/// feature index is marked.
pub proof fn law_subscribe_then_unsubscribe(s: LeloF1sV3View, i: u32)
    requires
        i < 8,
    ensures
        unsubscribed_state(subscribed_state(s, i), i) == unsubscribed_state(s, i),
        (s.subscribed_sensors == 0) == (forall|k: u32| k < 8 ==> !is_subscribed(s.subscribed_sensors, k)),
{
    let m = s.subscribed_sensors;
    assert((m | (1u8 << i)) & !(1u8 << i) == m & !(1u8 << i)) by (bit_vector)
        requires
            i < 8,
    ;
    if m != 0 {
        let k = choose|k: u32| k < 8 && m & (1u8 << k) != 0;
        assert(exists|k: u32| k < 8 && m & (1u8 << k) != 0) by {
            assert(m != 0 ==> (m & (1u8 << 0u32) != 0 || m & (1u8 << 1u32) != 0 || m & (1u8 << 2u32) != 0
                || m & (1u8 << 3u32) != 0 || m & (1u8 << 4u32) != 0 || m & (1u8 << 5u32) != 0 || m & (1u8
                << 6u32) != 0 || m & (1u8 << 7u32) != 0)) by (bit_vector);
        }
        assert(is_subscribed(m, k));
    } else {
        assert forall|k: u32| k < 8 implies !is_subscribed(m, k) by {
            assert(m == 0 ==> m & (1u8 << k) == 0) by (bit_vector);
        }
    }
}


/// Subscribing one sensor never changes the feature index that another
/// sensor's notifications are reported for: each of the four sensors keeps
/// its own slot.
pub proof fn law_subscriptions_are_per_sensor(
    s: LeloF1sV3View,
    device_index: u32,
    feature_index: u32,
    subscribed: InputType,
    other: InputType,
    d: Seq<u8>,
)
    requires
        state_valid(s),
        sensor_endpoint(subscribed) is Some,
        sensor_endpoint(other) is Some,
        subscribed != other,
    ensures
        notification_reading(
            subscribe_state(s, feature_index, subscribed),
            device_index,
            sensor_endpoint(other).unwrap(),
            d,
        ) == notification_reading(s, device_index, sensor_endpoint(other).unwrap(), d),
{
}


/// Feature index `i` (below 8) owns bit `i` of the subscription mask: the
/// bit of index 0 is 1 and each next index doubles it.
pub proof fn law_subscription_bit_is_power_of_two(i: u32)
    requires
        i < 7,
    ensures
        sensor_bit(0) == 1,
        sensor_bit((i + 1) as u32) as int == 2 * (sensor_bit(i) as int),
{
    assert((1u8 << 0u32) == 1u8) by (bit_vector);
    assert(i < 7 ==> (1u8 << ((i + 1) as u32)) as int == 2 * ((1u8 << i) as int)) by (bit_vector);
}

} // verus!
