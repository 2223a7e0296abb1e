use vstd::prelude::*;
use crate::pairs::pair_views;
use crate::models::{Variable, VariableDTO, VariableRegistry, VariableRegistryEntity};
use crate::sparql::{views_of, AttributeView, ChannelSolution, ChannelView, QuerySolutionOutput};
use crate::term::{literal_text, TermKind};

verus! {

/// Why the records of an entity give no configuration.
#[derive(Clone, Copy, Debug, PartialEq, Eq, Structural)]
pub enum ConfigError {
    /// The record at this place is a configuration value without a key.
    MissingKey(usize),
    /// The record at this place has a key, but its value is no literal.
    NotLiteral(usize),
}

/// A property assignment: the engine's key and the value.
pub type PropertyView = (Seq<char>, Seq<char>);

/// Whether a record is a configuration value: one whose path is not typed
/// by a class. A class-typed path is a relationship slot.
pub open spec fn configures(a: AttributeView) -> bool {
    !(a.shacl_type is Class)
}

/// The property assignments that the records of an entity amount to, in the
/// order of the records. Class-typed records are passed over. The first
/// configuration value without a key or without a literal is the fault
/// reported.
pub open spec fn config_entries(records: Seq<AttributeView>) -> Result<
    Seq<PropertyView>,
    ConfigError,
>
    decreases records.len(),
{
    if records.len() == 0 {
        Ok(Seq::empty())
    } else {
        match config_entries(records.drop_last()) {
            Err(e) => Err(e),
            Ok(before) => {
                let a = records.last();
                if !configures(a) {
                    Ok(before)
                } else if a.nifi_key is None {
                    Err(ConfigError::MissingKey((records.len() - 1) as usize))
                } else if literal_text(a.value) is None {
                    Err(ConfigError::NotLiteral((records.len() - 1) as usize))
                } else {
                    Ok(before.push((a.nifi_key.unwrap(), literal_text(a.value).unwrap())))
                }
            },
        }
    }
}

/// The configuration that a list of assignments amounts to when they are
/// applied in order: a later assignment replaces an earlier one of its key.
pub open spec fn config_map(entries: Seq<PropertyView>) -> Map<Seq<char>, Seq<char>>
    decreases entries.len(),
{
    if entries.len() == 0 {
        Map::empty()
    } else {
        config_map(entries.drop_last()).insert(entries.last().0, entries.last().1)
    }
}

/// Applied in order, a later assignment replaces an earlier one of its key
/// and leaves every other key as it was.
pub proof fn lemma_later_assignment_wins(entries: Seq<PropertyView>, key: Seq<char>, value: Seq<char>)
    ensures
        config_map(entries.push((key, value))) == config_map(entries).insert(key, value),
        config_map(entries.push((key, value)))[key] == value,
        forall|other: Seq<char>|
            other != key ==> (config_map(entries.push((key, value))).dom().contains(other)
                <==> config_map(entries).dom().contains(other)),
{
    assert(entries.push((key, value)).drop_last() =~= entries);
}

/// Folds the records of an entity into its property assignments.
pub fn configuration(records: &Vec<QuerySolutionOutput>) -> (r: Result<
    Vec<(String, String)>,
    ConfigError,
>)
    ensures
        match r {
            Ok(entries) => config_entries(views_of(records@)) == Ok::<
                Seq<PropertyView>,
                ConfigError,
            >(pair_views(entries@)),
            Err(e) => config_entries(views_of(records@)) == Err::<Seq<PropertyView>, ConfigError>(
                e,
            ),
        },
{
    let ghost all = views_of(records@);
    let mut out: Vec<(String, String)> = Vec::new();
    let mut i: usize = 0;
    proof {
        assert(pair_views(out@) =~= Seq::<PropertyView>::empty());
    }
    while i < records.len()
        invariant
            i <= records@.len(),
            all == views_of(records@),
            config_entries(all.take(i as int)) == Ok::<Seq<PropertyView>, ConfigError>(
                pair_views(out@),
            ),
        decreases records@.len() - i,
    {
        proof {
            assert(all.take(i + 1).drop_last() =~= all.take(i as int));
            assert(all.take(i + 1).last() == records@[i as int]@);
        }
        let record = &records[i];
        if !record.shacl_type.is_class() {
            let key = match &record.nifi_key {
                Some(k) => k.clone(),
                None => {
                    proof {
                        lemma_config_fault_stays(all.take(i + 1), all.skip(i + 1));
                        assert(all.take(i + 1) + all.skip(i + 1) =~= all);
                    }
                    return Err(ConfigError::MissingKey(i));
                },
            };
            if record.value.kind != TermKind::Literal {
                proof {
                    lemma_config_fault_stays(all.take(i + 1), all.skip(i + 1));
                    assert(all.take(i + 1) + all.skip(i + 1) =~= all);
                }
                return Err(ConfigError::NotLiteral(i));
            }
            let value = record.value.value.clone();
            let ghost before = out@;
            let ghost pair = (key@, value@);
            out.push((key, value));
            proof {
                assert(pair_views(out@) =~= pair_views(before).push(pair));
            }
        }
        i += 1;
    }
    proof {
        assert(all.take(i as int) =~= all);
    }
    Ok(out)
}

/// A fault found in the first records is the fault of the whole list.
pub proof fn lemma_config_fault_stays(records: Seq<AttributeView>, more: Seq<AttributeView>)
    requires
        config_entries(records) is Err,
    ensures
        config_entries(records + more) == config_entries(records),
    decreases more.len(),
{
    if more.len() == 0 {
        assert(records + more =~= records);
    } else {
        lemma_config_fault_stays(records, more.drop_last());
        assert((records + more).drop_last() =~= records + more.drop_last());
    }
}

/// The variables that the records of a channel entity set, one for each
/// record, in the order of the records.
pub open spec fn variables_of(records: Seq<ChannelView>) -> Seq<(Seq<char>, Seq<char>)> {
    Seq::new(records.len(), |i: int| (records[i].nifi_key, records[i].value))
}

pub fn variables(records: &Vec<ChannelSolution>) -> (out: Vec<VariableDTO>)
    ensures
        views_of(out@) == variables_of(views_of(records@)),
{
    let mut out: Vec<VariableDTO> = Vec::new();
    let mut i: usize = 0;
    while i < records.len()
        invariant
            i <= records@.len(),
            out@.len() == i,
            forall|j: int| 0 <= j < i ==> (#[trigger] out@[j])@ == (
                records@[j].nifi_key@,
                records@[j].value@,
            ),
        decreases records@.len() - i,
    {
        out.push(
            VariableDTO {
                variable: Variable {
                    name: records[i].nifi_key.clone(),
                    value: records[i].value.clone(),
                },
            },
        );
        i += 1;
    }
    proof {
        assert(views_of(out@) =~= variables_of(views_of(records@)));
    }
    out
}

impl VariableRegistryEntity {
    /// The registry with its variables replaced by the given ones; the
    /// revision and the group stay.
    pub fn with_variables(self, variables: Vec<VariableDTO>) -> (r: VariableRegistryEntity)
        ensures
            r.revision == self.revision,
            r.variable_registry.group == self.variable_registry.group,
            r.variable_registry.variables == variables,
    {
        VariableRegistryEntity {
            revision: self.revision,
            variable_registry: VariableRegistry { group: self.variable_registry.group, variables },
        }
    }
}

} // verus!
