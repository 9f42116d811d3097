//! The registry of drivers, and the text that names a driver and its
//! parameters: `NAME [':' PARAM=VALUE [',' PARAM=VALUE] ...]`.
use vstd::prelude::*;
use crate::text::{concat, is_split, is_trimmed, split, split_once, str_eq, trim};

verus! {

/// Why a driver could not be opened.
#[derive(Debug, Clone)]
pub enum OpenError {
    NotFound,
    ParameterError(String),
    DriverError(String),
}

impl OpenError {
    /// The error as text.
    pub fn message(&self) -> (s: String)
        ensures
            s@ == match *self {
                OpenError::NotFound => "Driver not found"@,
                OpenError::ParameterError(e) => "Parameter error: "@ + e@,
                OpenError::DriverError(e) => "Driver error: "@ + e@,
            },
    {
        match self {
            OpenError::NotFound => "Driver not found".to_owned(),
            OpenError::ParameterError(e) => concat("Parameter error: ", e.as_str()),
            OpenError::DriverError(e) => concat("Driver error: ", e.as_str()),
        }
    }
}

/// `s` is `a`, a colon, and `b`, where `a` holds no colon.
pub open spec fn colon_split(s: Seq<char>, a: Seq<char>, b: Seq<char>) -> bool {
    s == a + seq![':'] + b && !a.contains(':')
}

/// `piece` is a parameter named `name` with value `value`: the text before
/// its first `=`, and the text after it, trimmed.
pub open spec fn param_ok(piece: Seq<char>, name: Seq<char>, value: Seq<char>) -> bool {
    exists|x: Seq<char>, y: Seq<char>|
        #![trigger is_trimmed(x, name), is_trimmed(y, value)]
        piece == x + seq!['='] + y && !x.contains('=') && is_trimmed(x, name) && is_trimmed(
            y,
            value,
        )
}

/// The message when a parameter has no `=`.
pub open spec fn missing_equals_message() -> Seq<char> {
    "Parameter delimit name and value with '='"@
}

/// The outcome for a driver name `a` (before the colon) and the parameter
/// texts `pieces`: every piece must hold a `=`.
pub open spec fn params_result(
    a: Seq<char>,
    pieces: Seq<Seq<char>>,
    r: Result<(String, Vec<(String, String)>), OpenError>,
) -> bool {
    if forall|k: int| 0 <= k < pieces.len() ==> (#[trigger] pieces[k]).contains('=') {
        r matches Ok((n, ps)) && is_trimmed(a, n@) && ps@.len() == pieces.len() && forall|k: int|
            0 <= k < pieces.len() ==> param_ok(pieces[k], (#[trigger] ps@[k]).0@, ps@[k].1@)
    } else {
        r matches Err(OpenError::ParameterError(m)) && m@ == missing_equals_message()
    }
}

/// The outcome after the colon: `p` is the trimmed parameter text; without
/// parameters the name alone, else the parameters split at commas.
pub open spec fn parsed_after_colon(
    a: Seq<char>,
    p: Seq<char>,
    r: Result<(String, Vec<(String, String)>), OpenError>,
) -> bool {
    if p.len() == 0 {
        r matches Ok((n, ps)) && is_trimmed(a, n@) && ps@.len() == 0
    } else {
        exists|pieces: Seq<Seq<char>>| #[trigger] is_split(p, ',', pieces) && params_result(a, pieces, r)
    }
}

proof fn lemma_param_has_equals(piece: Seq<char>, name: Seq<char>, value: Seq<char>)
    requires
        param_ok(piece, name, value),
    ensures
        piece.contains('='),
{
    let (x, y) = choose|x: Seq<char>, y: Seq<char>|
        #![trigger is_trimmed(x, name), is_trimmed(y, value)]
        piece == x + seq!['='] + y && !x.contains('=') && is_trimmed(x, name) && is_trimmed(
            y,
            value,
        );
    assert(piece[x.len() as int] == '=');
}

fn parse_param(piece: &str) -> (r: Option<(String, String)>)
    ensures
        match r {
            None => !piece@.contains('='),
            Some((n, v)) => param_ok(piece@, n@, v@),
        },
{
    match split_once(piece, '=') {
        None => None,
        Some((x, y)) => {
            let n = trim(x);
            let v = trim(y);
            let r = (n.to_owned(), v.to_owned());
            assert(is_trimmed(x@, r.0@) && is_trimmed(y@, r.1@));
            Some(r)
        },
    }
}

/// What `parse_name_params` gives for the text `s`: without a colon the
/// whole text is the name; after the first colon the trimmed parameter text.
pub open spec fn name_params_result(
    s: Seq<char>,
    r: Result<(String, Vec<(String, String)>), OpenError>,
) -> bool {
    &&& !s.contains(':') ==> (r matches Ok((n, ps)) && n@ == s && ps@.len() == 0)
    &&& s.contains(':') ==> exists|a: Seq<char>, b: Seq<char>, p: Seq<char>|
        #![trigger colon_split(s, a, b), is_trimmed(b, p)]
        colon_split(s, a, b) && is_trimmed(b, p) && parsed_after_colon(a, p, r)
}

/// The driver name and parameters that `name_params` holds. Without a colon
/// the whole text is the name. After the colon the parameters follow,
/// separated by commas, each a name, `=` and a value; names and values are
/// trimmed of white space, and so is the driver name before the colon.
pub fn parse_name_params(name_params: &str) -> (r: Result<(String, Vec<(String, String)>), OpenError>)
    ensures
        name_params_result(name_params@, r),
{
    match split_once(name_params, ':') {
        None => Ok((name_params.to_owned(), Vec::new())),
        Some((a, b)) => {
            assert(colon_split(name_params@, a@, b@));
            assert(name_params@[a@.len() as int] == ':');
            let p = trim(b);
            let n = trim(a).to_owned();
            if p.is_empty() {
                return Ok((n, Vec::new()));
            }
            let pieces = split(p, ',');
            let ghost pv = pieces@.map_values(|q: &str| q@);
            assert(is_split(p@, ',', pv));
            let mut params: Vec<(String, String)> = Vec::new();
            let mut i: usize = 0;
            while i < pieces.len()
                invariant
                    i <= pieces.len(),
                    pv == pieces@.map_values(|q: &str| q@),
                    name_params@.contains(':'),
                    colon_split(name_params@, a@, b@),
                    is_trimmed(b@, p@),
                    is_split(p@, ',', pv),
                    p@.len() > 0,
                    params@.len() == i,
                    forall|k: int| 0 <= k < i ==> pv[k].contains('='),
                    forall|k: int|
                        0 <= k < i ==> param_ok(pv[k], (#[trigger] params@[k]).0@, params@[k].1@),
                decreases pieces.len() - i,
            {
                match parse_param(pieces[i]) {
                    None => {
                        let r = Err(OpenError::ParameterError(
                            "Parameter delimit name and value with '='".to_owned(),
                        ));
                        assert(!pv[i as int].contains('='));
                        assert(params_result(a@, pv, r));
                        assert(parsed_after_colon(a@, p@, r));
                        return r;
                    },
                    Some(param) => {
                        proof {
                            lemma_param_has_equals(pv[i as int], param.0@, param.1@);
                        }
                        params.push(param);
                    },
                }
                i = i + 1;
            }
            let r = Ok((n, params));
            assert(params_result(a@, pv, r));
            assert(parsed_after_colon(a@, p@, r));
            r
        },
    }
}

/// The registered drivers: their names and descriptions.
pub struct DriverRegistry {
    pub names: Vec<String>,
    pub descriptions: Vec<String>,
}

impl DriverRegistry {
    pub fn new() -> (r: DriverRegistry)
        ensures
            r.names@.len() == 0,
            r.descriptions@.len() == 0,
    {
        DriverRegistry { names: Vec::new(), descriptions: Vec::new() }
    }

    /// Registers a driver; the result is its index.
    pub fn add_driver(&mut self, name: String, description: String) -> (idx: usize)
        requires
            old(self).names@.len() == old(self).descriptions@.len(),
        ensures
            final(self).names@ == old(self).names@.push(name),
            final(self).descriptions@ == old(self).descriptions@.push(description),
            idx == old(self).names@.len(),
    {
        self.names.push(name);
        self.descriptions.push(description);
        self.names.len() - 1
    }

    /// The index of the first driver named `name`.
    pub fn find(&self, name: &str) -> (r: Option<usize>)
        ensures
            match r {
                Some(i) => i < self.names@.len() && self.names@[i as int]@ == name@ && forall|
                    j: int,
                | 0 <= j < i ==> (#[trigger] self.names@[j])@ != name@,
                None => forall|j: int|
                    0 <= j < self.names@.len() ==> (#[trigger] self.names@[j])@ != name@,
            },
    {
        let mut i: usize = 0;
        while i < self.names.len()
            invariant
                i <= self.names@.len(),
                forall|j: int| 0 <= j < i ==> (#[trigger] self.names@[j])@ != name@,
            decreases self.names.len() - i,
        {
            if str_eq(self.names[i].as_str(), name) {
                return Some(i);
            }
            i = i + 1;
        }
        None
    }
}

/// How opening goes, given what the text parsed to (`parsed`) and the names
/// of the registered drivers: a parse error stands; otherwise the first
/// driver with the parsed name is chosen, with the parsed parameters, and
/// without one the driver is not found.
pub open spec fn open_outcome(
    names: Seq<String>,
    parsed: Result<(String, Vec<(String, String)>), OpenError>,
    r: Result<(usize, Vec<(String, String)>), OpenError>,
) -> bool {
    match parsed {
        Err(e) => r == Err::<(usize, Vec<(String, String)>), OpenError>(e),
        Ok((n, ps)) => match r {
            Ok((i, qs)) => {
                &&& qs == ps
                &&& i < names.len()
                &&& names[i as int]@ == n@
                &&& forall|j: int| 0 <= j < i ==> (#[trigger] names[j])@ != n@
            },
            Err(OpenError::NotFound) => forall|j: int|
                0 <= j < names.len() ==> (#[trigger] names[j])@ != n@,
            Err(_) => false,
        },
    }
}

/// Chooses the driver that `name_params` names (see `parse_name_params`)
/// and the parameters to open it with. The result is the driver's index in
/// the registry, whose open callback the caller then runs.
pub fn open(registry: &DriverRegistry, name_params: &str) -> (r: Result<
    (usize, Vec<(String, String)>),
    OpenError,
>)
    ensures
        exists|parsed: Result<(String, Vec<(String, String)>), OpenError>|
            #[trigger] name_params_result(name_params@, parsed) && open_outcome(
                registry.names@,
                parsed,
                r,
            ),
{
    let parsed = parse_name_params(name_params);
    let ghost g = parsed;
    match parsed {
        Err(e) => {
            let r = Err(e);
            assert(open_outcome(registry.names@, g, r));
            r
        },
        Ok((n, ps)) => {
            let r = match registry.find(n.as_str()) {
                Some(i) => Ok((i, ps)),
                None => Err(OpenError::NotFound),
            };
            assert(open_outcome(registry.names@, g, r));
            r
        },
    }
}

/// The names of the registered drivers, in the order they were registered.
pub fn driver_names(registry: &DriverRegistry) -> (v: Vec<String>)
    ensures
        v@.len() == registry.names@.len(),
        forall|i: int| 0 <= i < v@.len() ==> (#[trigger] v@[i])@ == registry.names@[i]@,
{
    let mut v: Vec<String> = Vec::new();
    let mut i: usize = 0;
    while i < registry.names.len()
        invariant
            i <= registry.names@.len(),
            v@.len() == i,
            forall|k: int| 0 <= k < i ==> (#[trigger] v@[k])@ == registry.names@[k]@,
        decreases registry.names.len() - i,
    {
        v.push(registry.names[i].clone());
        i = i + 1;
    }
    v
}

/// The hardware drivers that a build has.
#[derive(Debug, Clone, Copy, PartialEq, Eq, Structural)]
pub struct DriverFeatures {
    pub helvar510: bool,
    pub dgw521: bool,
    pub pru: bool,
    pub dali_rpi: bool,
}

/// The registry after registering the drivers that `features` has, in the
/// order Helvar 510, DGW 521, PRU, Raspberry Pi Pico.
pub open spec fn spec_init_names(names: Seq<Seq<char>>, features: DriverFeatures) -> Seq<Seq<char>> {
    let n1 = if features.helvar510 {
        names.push("Helvar510"@)
    } else {
        names
    };
    let n2 = if features.dgw521 {
        n1.push("DGW521"@)
    } else {
        n1
    };
    let n3 = if features.pru {
        n2.push("PRU"@)
    } else {
        n2
    };
    if features.dali_rpi {
        n3.push("DALI_RPI"@)
    } else {
        n3
    }
}

/// The descriptions after registering the drivers that `features` has, in
/// the same order.
pub open spec fn spec_init_descriptions(descs: Seq<Seq<char>>, features: DriverFeatures) -> Seq<
    Seq<char>,
> {
    let n1 = if features.helvar510 {
        descs.push("Driver for Helvar 510 USB DALI-adapter"@)
    } else {
        descs
    };
    let n2 = if features.dgw521 {
        n1.push("Driver for ICP DAS DGW 521 DALI-adapter"@)
    } else {
        n1
    };
    let n3 = if features.pru {
        n2.push("Driver for DALI using the PRU on TI processors."@)
    } else {
        n2
    };
    if features.dali_rpi {
        n3.push("Driver for DALI on Raspberry Pi Pico"@)
    } else {
        n3
    }
}

/// The names of the drivers that `features` has, in the order Helvar 510,
/// DGW 521, PRU, Raspberry Pi Pico.
pub open spec fn enabled_driver_names(features: DriverFeatures) -> Seq<Seq<char>> {
    (if features.helvar510 { seq!["Helvar510"@] } else { Seq::empty() }) + (if features.dgw521 {
        seq!["DGW521"@]
    } else {
        Seq::empty()
    }) + (if features.pru { seq!["PRU"@] } else { Seq::empty() }) + (if features.dali_rpi {
        seq!["DALI_RPI"@]
    } else {
        Seq::empty()
    })
}

/// Registering the drivers keeps the names there were and adds those of
/// the drivers the build has after them, in order; with none, the names
/// stay as they were.
pub proof fn lemma_init_appends_names(names: Seq<Seq<char>>, features: DriverFeatures)
    ensures
        spec_init_names(names, features) == names + enabled_driver_names(features),
        !features.helvar510 && !features.dgw521 && !features.pru && !features.dali_rpi
            ==> spec_init_names(names, features) == names,
{
    assert(spec_init_names(names, features) =~= names + enabled_driver_names(features));
}

/// Registers the hardware drivers that the build has.
pub fn init(registry: &mut DriverRegistry, features: DriverFeatures) -> (r: Result<(), OpenError>)
    requires
        old(registry).names@.len() == old(registry).descriptions@.len(),
    ensures
        r is Ok,
        final(registry).names@.len() == final(registry).descriptions@.len(),
        final(registry).names@.map_values(|s: String| s@) == spec_init_names(
            old(registry).names@.map_values(|s: String| s@),
            features,
        ),
        final(registry).descriptions@.map_values(|s: String| s@) == spec_init_descriptions(
            old(registry).descriptions@.map_values(|s: String| s@),
            features,
        ),
{
    let ghost start = registry.names@.map_values(|s: String| s@);
    let ghost dstart = registry.descriptions@.map_values(|s: String| s@);
    if features.helvar510 {
        registry.add_driver(
            "Helvar510".to_owned(),
            "Driver for Helvar 510 USB DALI-adapter".to_owned(),
        );
    }
    let ghost n1 = registry.names@.map_values(|s: String| s@);
    assert(n1 =~= (if features.helvar510 { start.push("Helvar510"@) } else { start }));
    let ghost d1 = registry.descriptions@.map_values(|s: String| s@);
    assert(d1 =~= (if features.helvar510 {
        dstart.push("Driver for Helvar 510 USB DALI-adapter"@)
    } else {
        dstart
    }));
    if features.dgw521 {
        registry.add_driver(
            "DGW521".to_owned(),
            "Driver for ICP DAS DGW 521 DALI-adapter".to_owned(),
        );
    }
    let ghost n2 = registry.names@.map_values(|s: String| s@);
    assert(n2 =~= (if features.dgw521 { n1.push("DGW521"@) } else { n1 }));
    let ghost d2 = registry.descriptions@.map_values(|s: String| s@);
    assert(d2 =~= (if features.dgw521 {
        d1.push("Driver for ICP DAS DGW 521 DALI-adapter"@)
    } else {
        d1
    }));
    if features.pru {
        registry.add_driver("PRU".to_owned(), "Driver for DALI using the PRU on TI processors.".to_owned());
    }
    let ghost n3 = registry.names@.map_values(|s: String| s@);
    assert(n3 =~= (if features.pru { n2.push("PRU"@) } else { n2 }));
    let ghost d3 = registry.descriptions@.map_values(|s: String| s@);
    assert(d3 =~= (if features.pru {
        d2.push("Driver for DALI using the PRU on TI processors."@)
    } else {
        d2
    }));
    if features.dali_rpi {
        registry.add_driver(
            "DALI_RPI".to_owned(),
            "Driver for DALI on Raspberry Pi Pico".to_owned(),
        );
    }
    assert(registry.names@.map_values(|s: String| s@) =~= (if features.dali_rpi {
        n3.push("DALI_RPI"@)
    } else {
        n3
    }));
    assert(registry.descriptions@.map_values(|s: String| s@) =~= (if features.dali_rpi {
        d3.push("Driver for DALI on Raspberry Pi Pico"@)
    } else {
        d3
    }));
    Ok(())
}

} // verus!
