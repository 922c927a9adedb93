//! The HackRF One front end: probing, opening by argument map, and
//! the channel/antenna/gain-element surface the generic layer expects.

use vstd::prelude::*;

use crate::hackrfone::spec_rx_default;
use crate::hackrfone::spec_tx_default;
use crate::hackrfone::Config;
use crate::hackrfone::HackRf;
use crate::text::spec_parse_u32;
use crate::text::spec_u8_dec;
use crate::text::str_eq;
use crate::text::u8_dec;
use crate::transport::UsbTransport;
use crate::Args;
use crate::Direction;
use crate::Driver;
use crate::Error;

verus! {

/// The argument map probing produces for a radio at the given bus
/// number and address.
pub open spec fn probe_map(bus: u8, address: u8) -> Map<Seq<char>, Seq<char>> {
    Map::<Seq<char>, Seq<char>>::empty().insert("driver"@, "hackrfone"@).insert(
        "bus_number"@,
        spec_u8_dec(bus),
    ).insert("address"@, spec_u8_dec(address))
}

/// Whether an argument map identifies some probed radio.
pub open spec fn is_probe_entry(m: Map<Seq<char>, Seq<char>>) -> bool {
    exists|bus: u8, address: u8| m == probe_map(bus, address)
}

/// The byte a bound argument value denotes, when it is a decimal
/// number that fits in a byte.
pub open spec fn spec_u8_arg(m: Map<Seq<char>, Seq<char>>, k: Seq<char>) -> Option<u8> {
    match spec_parse_u32(m[k]) {
        Some(n) => if n <= 255 {
            Some(n as u8)
        } else {
            None
        },
        None => None,
    }
}

/// The argument map selects a radio by position: both `bus_number`
/// and `address` are bound to byte-sized decimal numbers.
pub open spec fn selects_by_position(m: Map<Seq<char>, Seq<char>>) -> bool {
    &&& m.contains_key("bus_number"@)
    &&& spec_u8_arg(m, "bus_number"@) is Some
    &&& m.contains_key("address"@)
    &&& spec_u8_arg(m, "address"@) is Some
}

/// The argument map leaves the radio choice open: neither position
/// key is bound.
pub open spec fn selects_first(m: Map<Seq<char>, Seq<char>>) -> bool {
    !m.contains_key("bus_number"@) && !m.contains_key("address"@)
}

/// Build the probe result for a list of scanned radios: one argument
/// map per `(bus number, address)` pair, in scan order.
pub fn probe_args(devs: &Vec<(u8, u8)>) -> (r: Vec<Args>)
    ensures
        r@.len() == devs@.len(),
        forall|i: int|
            0 <= i < devs@.len() ==> #[trigger] r@[i]@ == probe_map(devs@[i].0, devs@[i].1),
{
    let mut res: Vec<Args> = Vec::new();
    let mut i: usize = 0;
    while i < devs.len()
        invariant
            i <= devs@.len(),
            res@.len() == i,
            forall|k: int| 0 <= k < i ==> #[trigger] res@[k]@ == probe_map(devs@[k].0, devs@[k].1),
        decreases devs@.len() - i,
    {
        let (bus, address) = devs[i];
        let mut entry = Args::new();
        entry.set("driver".to_owned(), "hackrfone".to_owned());
        entry.set("bus_number".to_owned(), u8_dec(bus));
        entry.set("address".to_owned(), u8_dec(address));
        proof {
            assert(entry@ == probe_map(bus, address));
        }
        res.push(entry);
        i += 1;
    }
    res
}

/// A HackRF One viewed through the generic device surface: the driver
/// core plus one configuration per stream direction.
pub struct HackRfOne<T> {
    dev: HackRf<T>,
    tx_config: Config,
    rx_config: Config,
}

impl<T: crate::transport::Transport> HackRfOne<T> {
    /// The configuration that will be applied for the direction.
    pub closed spec fn spec_config(&self, direction: Direction) -> Config {
        match direction {
            Direction::Rx => self.rx_config,
            Direction::Tx => self.tx_config,
        }
    }

    /// Wrap an already opened radio, with the default configuration
    /// for each direction.
    pub fn with_device(dev: HackRf<T>) -> (r: Self)
        ensures
            r.spec_config(Direction::Tx) == spec_tx_default(),
            r.spec_config(Direction::Rx) == spec_rx_default(),
    {
        HackRfOne { dev, tx_config: Config::tx_default(), rx_config: Config::rx_default() }
    }

    /// The configuration that `start_rx`/`start_tx` would apply for
    /// the direction.
    pub fn config(&self, direction: Direction) -> (r: Config)
        ensures
            r == self.spec_config(direction),
    {
        match direction {
            Direction::Rx => self.rx_config,
            Direction::Tx => self.tx_config,
        }
    }

    /// Replace the configuration for the direction.
    pub fn set_config(&mut self, direction: Direction, config: Config)
        ensures
            final(self).spec_config(direction) == config,
            final(self).spec_config(
                match direction {
                    Direction::Rx => Direction::Tx,
                    Direction::Tx => Direction::Rx,
                },
            ) == old(self).spec_config(
                match direction {
                    Direction::Rx => Direction::Tx,
                    Direction::Tx => Direction::Rx,
                },
            ),
    {
        match direction {
            Direction::Rx => {
                self.rx_config = config;
            },
            Direction::Tx => {
                self.tx_config = config;
            },
        }
    }
}

impl HackRfOne<UsbTransport> {
    /// List the HackRF One radios on the bus as argument maps, each
    /// holding the driver name, bus number and address of one radio.
    pub fn probe(_args: &Args) -> (r: Result<Vec<Args>, Error>)
        ensures
            r matches Ok(v) ==> forall|i: int|
                0 <= i < v@.len() ==> is_probe_entry(#[trigger] v@[i]@),
            r matches Err(e) ==> e == Error::DeviceError,
    {
        let devs = match HackRf::scan() {
            Err(_) => {
                return Err(Error::DeviceError);
            },
            Ok(d) => d,
        };
        let res = probe_args(&devs);
        proof {
            assert forall|i: int| 0 <= i < res@.len() implies is_probe_entry(
                #[trigger] res@[i]@,
            ) by {
                assert(res@[i]@ == probe_map(devs@[i].0, devs@[i].1));
            }
        }
        Ok(res)
    }

    /// Open a HackRF One selected by arguments: with `bus_number` and
    /// `address` the radio at that position, with neither the first
    /// radio found; any other combination, or a number that is not a
    /// byte, is — exactly — a value error. An `fd` key asks for
    /// wrapping an already-open descriptor, which this USB backend
    /// cannot honor: it is refused — exactly — as not supported
    /// rather than silently ignored. The new device starts out idle
    /// with the default configurations.
    pub fn open(args: &Args) -> (r: Result<Self, Error>)
        ensures
            r matches Ok(d) ==> d.spec_config(Direction::Tx) == spec_tx_default()
                && d.spec_config(Direction::Rx) == spec_rx_default(),
            r == Err::<Self, Error>(Error::NotSupported) <==> args@.contains_key("fd"@),
            r == Err::<Self, Error>(Error::ValueError) <==> !args@.contains_key("fd"@)
                && !selects_first(args@) && !selects_by_position(args@),
            r matches Err(e) ==> (e == Error::ValueError || e == Error::NotFound || e
                == Error::DeviceError || e == Error::NotSupported),
    {
        match args.get("fd") {
            Ok(_) => {
                return Err(Error::NotSupported);
            },
            Err(_) => {},
        }
        let bus = match args.get("bus_number") {
            Err(_) => None,
            Ok(s) => match crate::text::parse_u32(s.as_str()) {
                Some(n) => if n <= 255 {
                    Some(Some(n as u8))
                } else {
                    Some(None)
                },
                None => Some(None),
            },
        };
        let address = match args.get("address") {
            Err(_) => None,
            Ok(s) => match crate::text::parse_u32(s.as_str()) {
                Some(n) => if n <= 255 {
                    Some(Some(n as u8))
                } else {
                    Some(None)
                },
                None => Some(None),
            },
        };
        let dev = match (bus, address) {
            (Some(Some(b)), Some(Some(a))) => {
                match HackRf::open_bus(b, a) {
                    Ok(d) => d,
                    Err(crate::hackrfone::Error::NotFound) => {
                        return Err(Error::NotFound);
                    },
                    Err(_) => {
                        return Err(Error::DeviceError);
                    },
                }
            },
            (None, None) => {
                match HackRf::open_first() {
                    Ok(d) => d,
                    Err(crate::hackrfone::Error::NotFound) => {
                        return Err(Error::NotFound);
                    },
                    Err(_) => {
                        return Err(Error::DeviceError);
                    },
                }
            },
            _ => {
                return Err(Error::ValueError);
            },
        };
        Ok(HackRfOne::with_device(dev))
    }
}

impl<T: crate::transport::Transport> HackRfOne<T> {
    /// The driver this device belongs to.
    pub fn driver(&self) -> (r: Driver)
        ensures
            r == Driver::HackRf,
    {
        Driver::HackRf
    }

    /// Identifier for the device: its board id, in decimal.
    pub fn id(&mut self) -> (r: Result<String, Error>)
        ensures
            r matches Ok(s) ==> exists|b: u8| s@ == spec_u8_dec(b),
            r matches Err(e) ==> e == Error::DeviceError,
    {
        match self.dev.board_id() {
            Err(_) => Err(Error::DeviceError),
            Ok(b) => Ok(u8_dec(b)),
        }
    }

    /// Device information for display: the firmware version string.
    pub fn info(&mut self) -> (r: Result<Args, Error>)
        ensures
            r matches Ok(a) ==> exists|v: Seq<char>|
                a@ == Map::<Seq<char>, Seq<char>>::empty().insert("firmware version"@, v),
            r matches Err(e) ==> e == Error::DeviceError,
    {
        let version = match self.dev.version() {
            Err(_) => {
                return Err(Error::DeviceError);
            },
            Ok(v) => v,
        };
        let mut args = Args::new();
        args.set("firmware version".to_owned(), version);
        Ok(args)
    }

    /// The radio has one channel in each direction.
    pub fn num_channels(&self, _direction: Direction) -> (r: Result<usize, Error>)
        ensures
            r == Ok::<usize, Error>(1),
    {
        Ok(1)
    }

    /// The radio cannot receive and transmit at the same time.
    pub fn full_duplex(&self, _direction: Direction, _channel: usize) -> (r: Result<bool, Error>)
        ensures
            r == Ok::<bool, Error>(false),
    {
        Ok(false)
    }

    /// The name of the single antenna port of the direction: `RX` or
    /// `TX`. Any channel but 0 is a value error.
    pub fn antenna(&self, direction: Direction, channel: usize) -> (r: Result<String, Error>)
        ensures
            channel == 0 ==> (r matches Ok(s) && s@ == (match direction {
                Direction::Rx => "RX"@,
                Direction::Tx => "TX"@,
            })),
            channel != 0 ==> r == Err::<String, Error>(Error::ValueError),
    {
        if channel == 0 {
            match direction {
                Direction::Rx => Ok("RX".to_owned()),
                Direction::Tx => Ok("TX".to_owned()),
            }
        } else {
            Err(Error::ValueError)
        }
    }

    /// The list of antenna ports of the direction: exactly one.
    pub fn antennas(&self, direction: Direction, channel: usize) -> (r: Result<Vec<String>, Error>)
        ensures
            channel == 0 ==> (r matches Ok(v) && v@.len() == 1 && v@[0]@ == (match direction {
                Direction::Rx => "RX"@,
                Direction::Tx => "TX"@,
            })),
            channel != 0 ==> r == Err::<Vec<String>, Error>(Error::ValueError),
    {
        match self.antenna(direction, channel) {
            Ok(a) => {
                let mut v: Vec<String> = Vec::new();
                v.push(a);
                Ok(v)
            },
            Err(e) => Err(e),
        }
    }

    /// Select an antenna port: only the fixed port of each direction
    /// exists, so any other name is not supported, and any channel
    /// but 0 is a value error.
    pub fn set_antenna(&self, direction: Direction, channel: usize, name: &str) -> (r: Result<
        (),
        Error,
    >)
        ensures
            channel != 0 ==> r == Err::<(), Error>(Error::ValueError),
            channel == 0 ==> (r == Ok::<(), Error>(()) <==> (direction == Direction::Rx && name@
                == "RX"@) || (direction == Direction::Tx && name@ == "TX"@)),
            channel == 0 ==> (r matches Err(e) ==> e == Error::NotSupported),
    {
        if channel == 0 {
            let matches_port = match direction {
                Direction::Rx => str_eq(name, "RX"),
                Direction::Tx => str_eq(name, "TX"),
            };
            if matches_port {
                Ok(())
            } else {
                Err(Error::NotSupported)
            }
        } else {
            Err(Error::ValueError)
        }
    }

    /// The radio has no automatic gain control.
    pub fn supports_agc(&self, _direction: Direction, channel: usize) -> (r: Result<bool, Error>)
        ensures
            channel == 0 ==> r == Ok::<bool, Error>(false),
            channel != 0 ==> r == Err::<bool, Error>(Error::ValueError),
    {
        if channel == 0 {
            Ok(false)
        } else {
            Err(Error::ValueError)
        }
    }

    /// Enabling automatic gain control is not supported.
    pub fn enable_agc(&self, _direction: Direction, channel: usize, _agc: bool) -> (r: Result<
        (),
        Error,
    >)
        ensures
            channel == 0 ==> r == Err::<(), Error>(Error::NotSupported),
            channel != 0 ==> r == Err::<(), Error>(Error::ValueError),
    {
        if channel == 0 {
            Err(Error::NotSupported)
        } else {
            Err(Error::ValueError)
        }
    }

    /// Reading the automatic gain control state is not supported.
    pub fn agc(&self, _direction: Direction, channel: usize) -> (r: Result<bool, Error>)
        ensures
            channel == 0 ==> r == Err::<bool, Error>(Error::NotSupported),
            channel != 0 ==> r == Err::<bool, Error>(Error::ValueError),
    {
        if channel == 0 {
            Err(Error::NotSupported)
        } else {
            Err(Error::ValueError)
        }
    }
}

} // verus!
