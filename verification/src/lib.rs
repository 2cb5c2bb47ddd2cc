//! A collection of small verified components: a thread-safe doubly linked
//! list shared through cloneable handles, a vending machine, an event-sourced
//! aggregate, typestate posts, keyed storage repositories, and a few other
//! utilities.

mod aggregate;
mod commands;
mod config;
mod email;
mod error;
pub mod event;
mod facts;
mod guess;
mod list;
mod post;
mod random;
mod rng;
mod solver;
mod stack;
mod storage;
pub mod user;
mod vending;

pub use config::get_config_path;
pub use config::get_conf_path;
pub use config::validate_conf_path;
pub use list::DoublyLinkedList;
pub use list::ListInv;
pub use list::ListState;
pub use list::Node;
pub use list::PushOp;
pub use list::apply_push;
pub use list::apply_pushes;
pub use list::pop_front_n;
pub use list::lemma_pushes_add_length;
pub use list::lemma_push_front_pop_front;
pub use list::lemma_push_back_pop_back;
pub use list::lemma_pop_all;
pub use aggregate::Aggregate;
pub use aggregate::AggregateEvent;
pub use aggregate::AggregateId;
pub use aggregate::Entity;
pub use aggregate::Event;
pub use aggregate::EventNumber;
pub use aggregate::HydratedAggregate;
pub use aggregate::MyAggregate;
pub use aggregate::MyAggregateId;
pub use aggregate::MyEvent;
pub use aggregate::Version;
pub use aggregate::apply_all;
pub use aggregate::events_enabled;
pub use aggregate::version_count;
pub use commands::CommandHandler;
pub use commands::CreateUser;
pub use commands::MockUserRepository;
pub use commands::UserRepository;
pub use storage::HashMapStorage;
pub use storage::Storage;
pub use storage::User;
pub use storage::UserRepositoryDyn;
pub use storage::UserRepositoryStatic;
pub use email::EmailString;
pub use email::contains_at_sign;
pub use error::Error;
pub use facts::Fact;
pub use guess::all_digits;
pub use guess::digit_val;
pub use guess::digits_value;
pub use guess::guess_from_line;
pub use guess::is_digit;
pub use guess::parse_u32;
pub use guess::secret_from_arg;
pub use guess::trimmed_of;
pub use random::Random;
pub use user::EventSourced;
pub use post::Deleted;
pub use post::New;
pub use post::Post;
pub use post::Published;
pub use post::Unmoderated;
pub use solver::Solver;
pub use solver::Trinity;
pub use solver::matches_some_rotation;
pub use solver::rotated;
pub use solver::survivors;
pub use solver::trinity_eq;
pub use vending::total_value;
pub use vending::Coin;
pub use vending::Product;
pub use vending::Shelf;
pub use vending::VendingMachine;
pub use vending::coins_total;
pub use vending::counts_with;
pub use vending::greedy_change_left;
pub use vending::greedy_counts_after;
pub use vending::greedy_spent_at;
pub use vending::occurrences;
pub use vending::shelf_has;
pub use vending::shelf_slot;
pub use vending::slot_value;
pub use vending::spec_slot;
pub use stack::GlobalStack;
pub use stack::StackInv;
