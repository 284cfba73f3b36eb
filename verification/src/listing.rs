use vstd::prelude::*;
use vstd::string::*;

verus! {

/// The text of an optional value: the value itself, or `?` where there is none.
pub open spec fn option_text(input: Option<String>) -> Seq<char> {
    match input {
        Some(s) => s@,
        None => "?"@,
    }
}

/// The first of a container's names, or `?` where it has none.
pub open spec fn first_name_text(names: Option<Vec<String>>) -> Seq<char> {
    match names {
        Some(v) => if v@.len() > 0 {
            v@[0]@
        } else {
            "?"@
        },
        None => "?"@,
    }
}

/// The line that the simple listing shows for one container:
/// `[<first name>] [<ip>] <command>`.
pub open spec fn component_line_text(
    names: Option<Vec<String>>,
    ip: Option<String>,
    command: Option<String>,
) -> Seq<char> {
    let ip_text = match ip {
        Some(s) => s@,
        None => Seq::<char>::empty(),
    };
    "["@ + first_name_text(names) + "] ["@ + ip_text + "] "@ + option_text(command)
}

/// `i` is the first position in `networks` of a network named `name`.
pub open spec fn is_first_named(
    networks: Seq<(String, Option<String>)>,
    name: Seq<char>,
    i: int,
) -> bool {
    &&& 0 <= i < networks.len()
    &&& networks[i].0@ == name
    &&& forall|j: int| 0 <= j < i ==> networks[j].0@ != name
}

/// The address that a container has on the network named `name`, given its
/// networks as (network name, address) pairs: the address of the first pair
/// with that name, or none where no pair has it.
pub open spec fn address_on(networks: Seq<(String, Option<String>)>, name: Seq<char>) -> Option<
    String,
> {
    if exists|i: int| is_first_named(networks, name, i) {
        networks[choose|i: int| is_first_named(networks, name, i)].1
    } else {
        None
    }
}

/// The address of a container on the cluster network, named after the
/// cluster: none where the container reports no networks, else the address
/// recorded for that network, if any.
pub fn cluster_address(networks: Option<Vec<(String, Option<String>)>>, cluster_name: &str) -> (r:
    Option<String>)
    ensures
        r == match networks {
            Some(v) => address_on(v@, cluster_name@),
            None => None,
        },
{
    match networks {
        None => None,
        Some(v) => {
            let name = String::from_str(cluster_name);
            let mut i: usize = 0;
            while i < v.len()
                invariant
                    i <= v@.len(),
                    name@ == cluster_name@,
                    networks == Some(v),
                    forall|j: int| 0 <= j < i ==> v@[j].0@ != cluster_name@,
                decreases v@.len() - i,
            {
                if v[i].0 == name {
                    proof {
                        assert(is_first_named(v@, cluster_name@, i as int));
                        let k = choose|k: int| is_first_named(v@, cluster_name@, k);
                        assert(k == i as int);
                    }
                    let found: Option<String> = match &v[i].1 {
                        Some(address) => Some(address.clone()),
                        None => None,
                    };
                    return found;
                }
                i = i + 1;
            }
            assert(!exists|k: int| is_first_named(v@, cluster_name@, k));
            None
        },
    }
}

/// The simple listing's line names a container by the first of its names
/// whenever it has one, and by `?` only where it has none; then comes its
/// address (empty where it has none) and its command (`?` where it has none).
pub proof fn law_component_line_names(
    names: Option<Vec<String>>,
    ip: Option<String>,
    command: Option<String>,
)
    ensures
        (names is Some && names.unwrap()@.len() > 0) ==> component_line_text(names, ip, command) == "["@
            + names.unwrap()@[0]@ + "] ["@ + (match ip {
            Some(a) => a@,
            None => Seq::<char>::empty(),
        }) + "] "@ + (match command {
            Some(c) => c@,
            None => "?"@,
        }),
        !(names is Some && names.unwrap()@.len() > 0) ==> component_line_text(names, ip, command)
            == "[?] ["@ + (match ip {
            Some(a) => a@,
            None => Seq::<char>::empty(),
        }) + "] "@ + (match command {
            Some(c) => c@,
            None => "?"@,
        }),
{
    reveal_strlit("[");
    reveal_strlit("?");
    reveal_strlit("[?] [");
    reveal_strlit("] [");
    assert("[?] ["@ =~= "["@ + "?"@ + "] ["@);
}

/// Shows an optional value: the value, or `?` where there is none.
pub fn option_str(input: Option<String>) -> (r: String)
    ensures
        r@ == option_text(input),
{
    match input {
        Some(input) => input,
        None => String::from_str("?"),
    }
}

/// Formats the simple listing's line for one container from its names, its
/// address on the cluster network and its command.
pub fn component_line(
    names: Option<Vec<String>>,
    ip: Option<String>,
    command: Option<String>,
) -> (r: String)
    ensures
        r@ == component_line_text(names, ip, command),
        (names is Some && names.unwrap()@.len() > 0) ==> r@ == "["@ + names.unwrap()@[0]@ + "] ["@ + (match ip {
            Some(a) => a@,
            None => Seq::<char>::empty(),
        }) + "] "@ + (match command {
            Some(c) => c@,
            None => "?"@,
        }),
        !(names is Some && names.unwrap()@.len() > 0) ==> r@ == "[?] ["@ + (match ip {
            Some(a) => a@,
            None => Seq::<char>::empty(),
        }) + "] "@ + (match command {
            Some(c) => c@,
            None => "?"@,
        }),
{
    let ghost spec_names = names;
    let ghost spec_ip = ip;
    let ghost spec_command = command;
    let first = match names {
        Some(v) => if v.len() > 0 {
            v[0].clone()
        } else {
            String::from_str("?")
        },
        None => String::from_str("?"),
    };
    let ip_text = match ip {
        Some(s) => s,
        None => String::new(),
    };
    let command_text = option_str(command);
    let r = String::from_str("[").concat(first.as_str()).concat("] [").concat(
        ip_text.as_str(),
    ).concat("] ").concat(command_text.as_str());
    assert(r@ =~= component_line_text(spec_names, spec_ip, spec_command));
    proof {
        law_component_line_names(spec_names, spec_ip, spec_command);
    }
    r
}

} // verus!
