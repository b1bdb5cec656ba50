//! A verified generator of non-player characters for a tabletop role-playing
//! game. A species template and an ordered career history are folded over a
//! staging aggregate - attribute bases rolled from dice expressions, talents
//! deduplicated into level increases bounded by per-definition caps,
//! trappings stacked, skills drawn without replacement - into an immutable
//! character with derived wounds. Every step is specified against a
//! mathematical model of the fold in which the random draws appear as
//! explicit arguments; the only unverified pieces are three small wrappers
//! around the entropy source and standard-library string primitives.

pub mod app;
pub mod base_attribute;
pub mod character;
pub mod character_attribute;
pub mod character_attributes_iter;
pub mod character_displayer;
pub mod character_generator;
pub mod command;
pub mod console_character_displayer;
pub mod consts;
pub mod generate_npc_command_args;
pub mod generation_base;
pub mod generation_error;
pub mod generation_model;
pub mod max_talent_level;
pub mod non_playable_character_generator;
pub mod profession;
pub mod profession_class;
pub mod random_provider;
pub mod resource_bag;
pub mod skill;
pub mod skill_definition;
pub mod species;
pub mod talent;
pub mod talent_definition;
pub mod text;
pub mod thread_based_random_provider;
pub mod trapping;
