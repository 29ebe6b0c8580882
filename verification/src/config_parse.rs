//! The server's configuration file, once parsed: general settings, the
//! simulator window and the LED matrix hardware, with the defaults that apply
//! where the file leaves a value out.

use vstd::prelude::*;

use crate::LedzillaServerConfig;

verus! {

/// Port the server listens on when the file names none.
pub fn default_port() -> (p: u16)
    ensures
        p == 8080,
{
    8080
}

/// Frame rate used when the file names none.
pub fn default_fps() -> (f: u32)
    ensures
        f == 75,
{
    75
}

/// The `general_config` section.
#[derive(Debug, Clone)]
pub struct GeneralConfig {
    pub use_sim: bool,
    /// Should match the width in the simulator or LED section.
    pub canvas_width: u32,
    /// Should match the height in the simulator or LED section.
    pub canvas_height: u32,
    pub server_port: u16,
}

/// The `sim_config` section.
#[derive(Debug, Clone)]
pub struct SimConfig {
    pub width: u32,
    pub height: u32,
    pub scaling_factor: u32,
    pub target_fps: u32,
}

/// The `led_config` section, as written in the file.
#[derive(Debug, Clone)]
pub struct LedConfigSection {
    pub rows: usize,
    pub cols: usize,
    pub chain_length: Option<usize>,
    pub num_chains: Option<usize>,
    pub pwm_bits: Option<usize>,
    pub pwm_dither_bits: Option<usize>,
    pub pwm_lsb_ns: Option<u32>,
    pub gpio_slowdown: Option<u32>,
    pub pixel_mappers: Option<Vec<String>>,
    pub brightness: Option<u8>,
    pub refresh_rate: u32,
}

/// The whole file.
#[derive(Debug, Clone)]
pub struct ParsedConfig {
    pub general_config: GeneralConfig,
    pub led_config: LedConfigSection,
    pub sim_config: SimConfig,
}

/// A way of mapping the logical layout of the panels onto their physical
/// arrangement.
#[derive(Debug, PartialEq, Eq, Structural, Clone, Copy)]
pub enum PixelMapper {
    /// Mirrored; `true` for horizontally.
    Mirror(bool),
    /// Rotated by the angle, in degrees.
    Rotate(usize),
    /// Panels of a chain bent round in a U.
    UMapper,
    /// Panels in one straight chain per connector.
    ChainLink,
}

/// Position of the first `:` in `s`, if any.
pub open spec fn first_colon(s: Seq<char>) -> Option<nat>
    decreases s.len(),
{
    if s.len() == 0 {
        None
    } else if s[0] == ':' {
        Some(0)
    } else {
        match first_colon(s.skip(1)) {
            Some(k) => Some(k + 1),
            None => None,
        }
    }
}

/// Every character is a decimal digit.
pub open spec fn all_digits(s: Seq<char>) -> bool {
    forall|i: int| 0 <= i < s.len() ==> '0' <= #[trigger] s[i] && s[i] <= '9'
}

/// The number a string of decimal digits writes.
pub open spec fn digits_value(s: Seq<char>) -> nat
    decreases s.len(),
{
    if s.len() == 0 {
        0
    } else {
        digits_value(s.drop_last()) * 10 + (s.last() as nat - '0' as nat) as nat
    }
}

/// What `usize`'s `from_str` reads from `s`: an optional `+`, then one or more
/// decimal digits whose value fits in a `usize`.
pub open spec fn usize_text_value(s: Seq<char>) -> Option<nat> {
    let t = if s.len() > 0 && s[0] == '+' {
        s.skip(1)
    } else {
        s
    };
    if t.len() > 0 && all_digits(t) && digits_value(t) <= usize::MAX {
        Some(digits_value(t))
    } else {
        None
    }
}

/// The pixel mapper a name selects: `Mirror:H` or `Mirror:h` (horizontal),
/// `Mirror:V` or `Mirror:v`, `Rotate:<angle>` for a multiple of 90 degrees
/// (taken modulo 360), `U-mapper` and `ChainLink`.
pub open spec fn mapper_of_name(s: Seq<char>) -> Option<PixelMapper> {
    match first_colon(s) {
        Some(k) => {
            let command = s.take(k as int);
            let param = s.skip(k + 1int);
            if command == "Mirror"@ {
                if param == "H"@ || param == "h"@ {
                    Some(PixelMapper::Mirror(true))
                } else if param == "V"@ || param == "v"@ {
                    Some(PixelMapper::Mirror(false))
                } else {
                    None
                }
            } else if command == "Rotate"@ {
                match usize_text_value(param) {
                    Some(a) => if a % 90 == 0 {
                        Some(PixelMapper::Rotate(((a + 360) % 360) as usize))
                    } else {
                        None
                    },
                    None => None,
                }
            } else {
                None
            }
        },
        None => if s == "U-mapper"@ {
            Some(PixelMapper::UMapper)
        } else if s == "ChainLink"@ {
            Some(PixelMapper::ChainLink)
        } else {
            None
        },
    }
}

/// A rotation by a multiple of 90 degrees so large that adding 360 to it
/// overflows a `usize`.
pub open spec fn rotation_overflows(s: Seq<char>) -> bool {
    &&& first_colon(s) matches Some(k)
    &&& s.take(k as int) == "Rotate"@
    &&& usize_text_value(s.skip(k + 1int)) matches Some(a)
    &&& a % 90 == 0
    &&& a + 360 > usize::MAX
}

/// Error text: a rotation angle too large to be reduced.
pub open spec fn rotation_overflow_msg() -> Seq<char> {
    "Rotation angle is too large"@
}

/// A number written in decimal, without leading zeros.
pub open spec fn decimal_text(n: nat) -> Seq<char>
    decreases n,
{
    if n < 10 {
        seq![(n + '0' as nat) as char]
    } else {
        decimal_text(n / 10) + seq![((n % 10) + '0' as nat) as char]
    }
}

/// The text of the error `rpi_led_panel` gives for a name that is no pixel
/// mapper (and no overflowing rotation).
pub open spec fn pixel_mapper_error(name: Seq<char>) -> Seq<char> {
    match first_colon(name) {
        Some(k) => {
            let command = name.take(k as int);
            let param = name.skip(k + 1int);
            if command == "Mirror"@ {
                "'"@ + param + "' is not valid. Mirror parameter should be either 'V' or 'H'"@
            } else if command == "Rotate"@ {
                match usize_text_value(param) {
                    Some(a) => "'"@ + decimal_text(a) + "' is not valid. Rotation needs to be a multiple of 90 degrees"@,
                    None => "Rotation angle is missing or invalid"@,
                }
            } else {
                "'"@ + command + "' is not a valid Pixel mapping."@
            }
        },
        None => "'"@ + name + "' is not a valid Pixel mapping."@,
    }
}

/// What a pixel mapper's name reads as: the mapper, or the text of the error.
pub open spec fn pixel_mapper_of(name: Seq<char>) -> Result<PixelMapper, Seq<char>> {
    if rotation_overflows(name) {
        Err(rotation_overflow_msg())
    } else {
        match mapper_of_name(name) {
            Some(m) => Ok(m),
            None => Err(pixel_mapper_error(name)),
        }
    }
}

/// Reads a pixel mapper's name.
///
/// Trusted: `<rpi_led_panel::NamedPixelMapperType as FromStr>::from_str`. Its
/// source splits the name at the first `:`, reads `Mirror:` with `H`, `h`, `V`
/// or `v`, and `Rotate:` with a `usize` that is a multiple of 90 (reduced by
/// `(angle + 360) % 360`, which overflows for the angles that
/// [`rotation_overflows`] leaves out), and takes `U-mapper` and `ChainLink` as
/// they are; anything else is an error. The mapper's
/// variant and field are copied one for one; the error's text is the one the
/// source writes for each case ([`pixel_mapper_error`]).
#[verifier::external_body]
fn parse_pixel_mapper(name: &str) -> (r: Result<PixelMapper, String>)
    requires
        !rotation_overflows(name@),
    ensures
        r is Ok <==> mapper_of_name(name@) is Some,
        r matches Ok(m) ==> mapper_of_name(name@) == Some(m),
        r matches Err(e) ==> e@ == pixel_mapper_error(name@),
{
    match name.parse::<rpi_led_panel::NamedPixelMapperType>() {
        Ok(rpi_led_panel::NamedPixelMapperType::Mirror(h)) => Ok(PixelMapper::Mirror(h)),
        Ok(rpi_led_panel::NamedPixelMapperType::Rotate(a)) => Ok(PixelMapper::Rotate(a)),
        Ok(rpi_led_panel::NamedPixelMapperType::UMapper) => Ok(PixelMapper::UMapper),
        Ok(rpi_led_panel::NamedPixelMapperType::ChainLink) => Ok(PixelMapper::ChainLink),
        Err(e) => Err(e.to_string()),
    }
}

proof fn lemma_first_colon(v: Seq<char>, j: int)
    requires
        0 <= j <= v.len(),
        forall|i: int| 0 <= i < j ==> v[i] != ':',
        j == v.len() || v[j] == ':',
    ensures
        j < v.len() ==> first_colon(v) == Some(j as nat),
        j == v.len() ==> first_colon(v) is None,
    decreases j,
{
    if j > 0 {
        let t = v.skip(1);
        assert(v[0] != ':');
        assert forall|i: int| 0 <= i < j - 1 implies t[i] != ':' by {
            assert(t[i] == v[i + 1]);
        }
        if j < v.len() {
            assert(t[j - 1] == v[j]);
        }
        lemma_first_colon(t, j - 1);
    }
}

/// A prefix of a string of digits writes no larger a number.
proof fn lemma_digits_prefix(s: Seq<char>, i: int)
    requires
        0 <= i <= s.len(),
        all_digits(s),
    ensures
        digits_value(s.take(i)) <= digits_value(s),
    decreases s.len() - i,
{
    if i < s.len() {
        lemma_digits_prefix(s, i + 1);
        assert(s.take(i + 1).drop_last() == s.take(i));
        assert('0' <= s[i]);
    } else {
        assert(s.take(i) == s);
    }
}

/// Reads a `usize` the way its `from_str` does (see [`usize_text_value`]).
fn parse_usize_text(v: &Vec<char>) -> (r: Option<usize>)
    ensures
        r matches Some(a) ==> usize_text_value(v@) == Some(a as nat),
        r is None ==> usize_text_value(v@) is None,
{
    let start: usize = if v.len() > 0 && v[0] == '+' {
        1
    } else {
        0
    };
    let ghost t = v@.skip(start as int);
    if start >= v.len() {
        return None;
    }
    proof {
        if start == 0 {
            assert(v@.skip(0) =~= v@);
        }
    }
    let ghost whole = usize_text_value(v@);
    assert(whole == (if t.len() > 0 && all_digits(t) && digits_value(t) <= usize::MAX {
        Some(digits_value(t))
    } else {
        None
    }));
    let mut acc: usize = 0;
    let mut i: usize = start;
    while i < v.len()
        invariant
            whole == usize_text_value(v@),
            whole == (if t.len() > 0 && all_digits(t) && digits_value(t) <= usize::MAX {
                Some(digits_value(t))
            } else {
                None
            }),
            t.len() == v@.len() - start,
            start <= i <= v@.len(),
            start < v@.len(),
            t == v@.skip(start as int),
            all_digits(t.take(i - start)),
            acc as nat == digits_value(t.take(i - start)),
        decreases v@.len() - i,
    {
        let c = v[i];
        assert(t[i - start] == c);
        if c < '0' || c > '9' {
            assert(!all_digits(t));
            return None;
        }
        let d = (c as u32 - '0' as u32) as usize;
        assert(t.take(i - start + 1).drop_last() == t.take(i - start));
        assert(t.take(i - start + 1).last() == c);
        proof {
            assert forall|k: int| 0 <= k < i - start + 1 implies '0' <= #[trigger] t.take(i - start + 1)[k]
                && t.take(i - start + 1)[k] <= '9' by {
                if k < i - start {
                    assert(t.take(i - start + 1)[k] == t.take(i - start)[k]);
                }
            }
        }
        let next = match acc.checked_mul(10) {
            Some(m) => m.checked_add(d),
            None => None,
        };
        match next {
            Some(n) => {
                acc = n;
            },
            None => {
                proof {
                    let rest_ok = all_digits(t);
                    if rest_ok {
                        lemma_digits_prefix(t, i - start + 1);
                    }
                }
                return None;
            },
        }
        i = i + 1;
    }
    assert(t.take(i - start) == t);
    Some(acc)
}

/// Whether a name asks for a rotation too large to be reduced.
fn rotation_angle_overflows(name: &str) -> (b: bool)
    ensures
        b == rotation_overflows(name@),
{
    let v = crate::text::chars_of(name);
    let mut k: usize = 0;
    while k < v.len() && v[k] != ':'
        invariant
            k <= v@.len(),
            forall|i: int| 0 <= i < k ==> v@[i] != ':',
        decreases v@.len() - k,
    {
        k = k + 1;
    }
    proof {
        lemma_first_colon(v@, k as int);
    }
    if k == v.len() {
        return false;
    }
    let mut command: Vec<char> = Vec::new();
    let mut i: usize = 0;
    while i < k
        invariant
            i <= k < v@.len(),
            command@ == v@.take(i as int),
        decreases k - i,
    {
        command.push(v[i]);
        assert(v@.take(i + 1) == v@.take(i as int).push(v@[i as int]));
        i = i + 1;
    }
    if !crate::text::same_chars(&command, &crate::text::chars_of("Rotate")) {
        return false;
    }
    let mut param: Vec<char> = Vec::new();
    let mut j: usize = k + 1;
    while j < v.len()
        invariant
            k < j <= v@.len(),
            param@ == v@.subrange(k + 1, j as int),
        decreases v@.len() - j,
    {
        param.push(v[j]);
        assert(v@.subrange(k + 1, j + 1) == v@.subrange(k + 1, j as int).push(v@[j as int]));
        j = j + 1;
    }
    assert(param@ == v@.skip(k + 1));
    match parse_usize_text(&param) {
        Some(a) => a % 90 == 0 && a > usize::MAX - 360,
        None => false,
    }
}

/// The hardware settings of the LED matrix that the file decides.
#[derive(Debug, Clone)]
pub struct LedPanelSettings {
    pub rows: usize,
    pub cols: usize,
    pub refresh_rate: usize,
    pub pwm_bits: usize,
    pub pwm_lsb_nanoseconds: u32,
    pub slowdown: Option<u32>,
    pub dither_bits: usize,
    pub chain_length: usize,
    pub parallel: usize,
    pub pixelmapper: Vec<PixelMapper>,
    pub led_brightness: u8,
}

/// The defaults of `rpi_led_panel`'s matrix configuration that the file may
/// override: PWM bits, PWM LSB time, GPIO slowdown, dither bits, chain length,
/// parallel chains and brightness.
pub struct MatrixDefaults {
    pub pwm_bits: usize,
    pub pwm_lsb_nanoseconds: u32,
    pub slowdown: Option<u32>,
    pub dither_bits: usize,
    pub chain_length: usize,
    pub parallel: usize,
    pub led_brightness: u8,
}

/// The defaults of the matrix configuration.
///
/// Trusted: `rpi_led_panel::RGBMatrixConfig::default()`, whose source sets
/// PWM bits 11, PWM LSB 130 ns, no slowdown, no dither bits, one chain of
/// length 1 and brightness 100; the fields are copied one for one.
#[verifier::external_body]
fn matrix_defaults() -> (d: MatrixDefaults)
    ensures
        d.pwm_bits == 11,
        d.pwm_lsb_nanoseconds == 130,
        d.slowdown is None,
        d.dither_bits == 0,
        d.chain_length == 1,
        d.parallel == 1,
        d.led_brightness == 100,
{
    let c = rpi_led_panel::RGBMatrixConfig::default();
    MatrixDefaults {
        pwm_bits: c.pwm_bits,
        pwm_lsb_nanoseconds: c.pwm_lsb_nanoseconds,
        slowdown: c.slowdown,
        dither_bits: c.dither_bits,
        chain_length: c.chain_length,
        parallel: c.parallel,
        led_brightness: c.led_brightness,
    }
}

/// `o`'s value, or `d` where it has none.
pub open spec fn or_default<T>(o: Option<T>, d: T) -> T {
    match o {
        Some(v) => v,
        None => d,
    }
}

/// The pixel mapper names of a section, in order (none where it lists none).
pub open spec fn mapper_names(section: LedConfigSection) -> Seq<Seq<char>> {
    match section.pixel_mappers {
        Some(v) => v@.map_values(|s: String| s@),
        None => Seq::empty(),
    }
}

/// Every name in `names` is a valid pixel mapper.
pub open spec fn mappers_valid(names: Seq<Seq<char>>) -> bool {
    forall|j: int| 0 <= j < names.len() ==> (#[trigger] pixel_mapper_of(names[j])) is Ok
}

/// `k` is the first invalid name in `names`.
pub open spec fn first_invalid_mapper(names: Seq<Seq<char>>, k: int) -> bool {
    &&& 0 <= k < names.len()
    &&& pixel_mapper_of(names[k]) is Err
    &&& forall|j: int| 0 <= j < k ==> (#[trigger] pixel_mapper_of(names[j])) is Ok
}

/// The settings are those of the section, over the library's defaults, with
/// the given pixel mappers.
pub open spec fn settings_match(s: LedPanelSettings, section: LedConfigSection, mappers: Seq<PixelMapper>) -> bool {
    &&& s.rows == section.rows
    &&& s.cols == section.cols
    &&& s.refresh_rate == section.refresh_rate
    &&& s.chain_length == or_default(section.chain_length, 1usize)
    &&& s.parallel == or_default(section.num_chains, 1usize)
    &&& s.pwm_bits == or_default(section.pwm_bits, 11usize)
    &&& s.pwm_lsb_nanoseconds == or_default(section.pwm_lsb_ns, 130u32)
    &&& s.dither_bits == or_default(section.pwm_dither_bits, 0usize)
    &&& s.slowdown == section.gpio_slowdown
    &&& s.led_brightness == or_default(section.brightness, 100u8)
    &&& s.pixelmapper@ == mappers
}

/// Reads the configuration file's sections and answers for each part of the
/// server.
#[derive(Debug, Clone)]
pub struct ConfigParser {
    parsed_config: ParsedConfig,
}

impl ConfigParser {
    /// The configuration that was parsed.
    pub closed spec fn spec_parsed(&self) -> ParsedConfig {
        self.parsed_config
    }

    /// A parser over a parsed file.
    pub fn new(parsed_config: ParsedConfig) -> (c: Self)
        ensures
            c.spec_parsed() == parsed_config,
    {
        ConfigParser { parsed_config }
    }

    /// The general section.
    pub fn get_general_config(&self) -> (g: GeneralConfig)
        ensures
            g == self.spec_parsed().general_config,
    {
        let g = &self.parsed_config.general_config;
        GeneralConfig {
            use_sim: g.use_sim,
            canvas_width: g.canvas_width,
            canvas_height: g.canvas_height,
            server_port: g.server_port,
        }
    }

    /// The simulator section.
    pub fn get_sim_config(&self) -> (s: SimConfig)
        ensures
            s == self.spec_parsed().sim_config,
    {
        let s = &self.parsed_config.sim_config;
        SimConfig {
            width: s.width,
            height: s.height,
            scaling_factor: s.scaling_factor,
            target_fps: s.target_fps,
        }
    }

    /// The LED matrix settings: the section's values over the matrix
    /// defaults, with its pixel mappers read in order. The first name that is
    /// not a pixel mapper makes it fail with that name's error.
    pub fn get_led_config(&self) -> (r: Result<LedPanelSettings, String>)
        ensures
            r is Ok <==> mappers_valid(mapper_names(self.spec_parsed().led_config)),
            r matches Ok(s) ==> settings_match(
                s,
                self.spec_parsed().led_config,
                mapper_names(self.spec_parsed().led_config).map_values(
                    |n: Seq<char>| pixel_mapper_of(n)->Ok_0,
                ),
            ),
            r matches Err(e) ==> exists|k: int|
                first_invalid_mapper(mapper_names(self.spec_parsed().led_config), k)
                    && #[trigger] pixel_mapper_of(mapper_names(self.spec_parsed().led_config)[k])
                    == Err::<PixelMapper, Seq<char>>(e@),
    {
        let section = &self.parsed_config.led_config;
        let ghost names = mapper_names(*section);
        let d = matrix_defaults();
        let mut mappers: Vec<PixelMapper> = Vec::new();
        match &section.pixel_mappers {
            Some(list) => {
                let mut i: usize = 0;
                while i < list.len()
                    invariant
                        names == list@.map_values(|s: String| s@),
                        names == mapper_names(self.spec_parsed().led_config),
                        i <= list@.len(),
                        mappers@.len() == i,
                        forall|j: int| 0 <= j < i ==> (#[trigger] pixel_mapper_of(names[j])) == Ok::<PixelMapper, Seq<char>>(mappers@[j]),
                    decreases list@.len() - i,
                {
                    if rotation_angle_overflows(list[i].as_str()) {
                        assert(first_invalid_mapper(names, i as int));
                        let e = "Rotation angle is too large".to_owned();
                        proof {
                            reveal_strlit("Rotation angle is too large");
                        }
                        assert(pixel_mapper_of(names[i as int]) == Err::<PixelMapper, Seq<char>>(e@));
                        return Err(e);
                    }
                    match parse_pixel_mapper(list[i].as_str()) {
                        Ok(m) => {
                            mappers.push(m);
                        },
                        Err(e) => {
                            assert(first_invalid_mapper(names, i as int));
                            assert(pixel_mapper_of(names[i as int]) == Err::<PixelMapper, Seq<char>>(e@));
                            return Err(e);
                        },
                    }
                    i = i + 1;
                }
            },
            None => {},
        }
        let settings = LedPanelSettings {
            rows: section.rows,
            cols: section.cols,
            refresh_rate: section.refresh_rate as usize,
            pwm_bits: match section.pwm_bits {
                Some(v) => v,
                None => d.pwm_bits,
            },
            pwm_lsb_nanoseconds: match section.pwm_lsb_ns {
                Some(v) => v,
                None => d.pwm_lsb_nanoseconds,
            },
            slowdown: match section.gpio_slowdown {
                Some(v) => Some(v),
                None => d.slowdown,
            },
            dither_bits: match section.pwm_dither_bits {
                Some(v) => v,
                None => d.dither_bits,
            },
            chain_length: match section.chain_length {
                Some(v) => v,
                None => d.chain_length,
            },
            parallel: match section.num_chains {
                Some(v) => v,
                None => d.parallel,
            },
            pixelmapper: mappers,
            led_brightness: match section.brightness {
                Some(v) => v,
                None => d.led_brightness,
            },
        };
        proof {
            assert(settings.pixelmapper@ =~= names.map_values(|n: Seq<char>| pixel_mapper_of(n)->Ok_0));
        }
        Ok(settings)
    }

    /// The server's own settings: the general section's port and canvas size,
    /// with the address to listen on and the directory of static content.
    pub fn get_ledzilla_config(&self, ip: String, content_root: String) -> (c: LedzillaServerConfig)
        ensures
            c.ip@ == ip@,
            c.content_root@ == content_root@,
            c.port == self.spec_parsed().general_config.server_port,
            c.canvas_size == (
                self.spec_parsed().general_config.canvas_width,
                self.spec_parsed().general_config.canvas_height,
            ),
    {
        let g = &self.parsed_config.general_config;
        LedzillaServerConfig {
            ip,
            port: g.server_port,
            content_root,
            canvas_size: (g.canvas_width, g.canvas_height),
        }
    }
}

/// LED settings that match a section carry every value the section gives,
/// and the matrix defaults exactly where it gives none: rows, columns and
/// refresh rate as given; chain length 1, parallel chains 1, 11 PWM bits,
/// 130 ns PWM LSB time, no dither bits, no GPIO slowdown and brightness 100 by
/// default.
pub proof fn lemma_settings_follow_section(s: LedPanelSettings, section: LedConfigSection, mappers: Seq<PixelMapper>)
    requires
        settings_match(s, section, mappers),
    ensures
        s.rows == section.rows && s.cols == section.cols && s.refresh_rate == section.refresh_rate,
        section.brightness matches Some(b) ==> s.led_brightness == b,
        section.brightness is None ==> s.led_brightness == 100,
        section.chain_length matches Some(v) ==> s.chain_length == v,
        section.chain_length is None ==> s.chain_length == 1,
        section.num_chains matches Some(v) ==> s.parallel == v,
        section.num_chains is None ==> s.parallel == 1,
        section.pwm_bits matches Some(v) ==> s.pwm_bits == v,
        section.pwm_bits is None ==> s.pwm_bits == 11,
        section.pwm_lsb_ns matches Some(v) ==> s.pwm_lsb_nanoseconds == v,
        section.pwm_lsb_ns is None ==> s.pwm_lsb_nanoseconds == 130,
        section.pwm_dither_bits matches Some(v) ==> s.dither_bits == v,
        section.pwm_dither_bits is None ==> s.dither_bits == 0,
        s.slowdown == section.gpio_slowdown,
        s.pixelmapper@ == mappers,
{
}

} // verus!
