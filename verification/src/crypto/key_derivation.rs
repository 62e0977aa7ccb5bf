//! Password-based key derivation with Argon2id and its tunable costs.

use vstd::prelude::*;
use crate::crypto::KEY_LENGTH;
use crate::crypto::MAX_MEMORY_COST;
use crate::crypto::MAX_PARALLELISM;
use crate::crypto::MAX_TIME_COST;
use crate::crypto::RECOMMENDED_MEMORY_COST;
use crate::crypto::RECOMMENDED_TIME_COST;
use crate::crypto::SALT_LENGTH;
use crate::crypto::primitives::argon2_check_params;
use crate::crypto::primitives::argon2_params_fault;
use crate::crypto::primitives::argon2id;
use crate::crypto::primitives::argon2id_hash;
use crate::crypto::primitives::argon2id_hash_keyed;
use crate::crypto::primitives::MAX_COUNTABLE_LANES;
use crate::crypto::primitives::MAX_KDF_INPUT_LENGTH;
use crate::crypto::primitives::os_random_bytes;
use crate::crypto::primitives::physical_cores;
use crate::crypto::secure::SecureMemory;
use crate::error::crypto_error::CryptoError;

verus! {

/// The verdict on a choice of costs. The memory must cover eight KiB per lane
/// and stay under its cap; passes and lanes must lie between one and their
/// caps. The memory is judged first, then the passes, then the lanes.
pub open spec fn check_params(memory_cost: u32, time_cost: u32, parallelism: u32) -> Result<
    (),
    CryptoError,
> {
    if memory_cost < 8 * parallelism {
        Err(CryptoError::InvalidMemoryCost)
    } else if memory_cost > MAX_MEMORY_COST {
        Err(CryptoError::InvalidMemoryCost)
    } else if time_cost < 1 || time_cost > MAX_TIME_COST {
        Err(CryptoError::InvalidTimeCost)
    } else if parallelism < 1 || parallelism > MAX_PARALLELISM {
        Err(CryptoError::InvalidParallelism)
    } else {
        Ok(())
    }
}

/// The key that Argon2id derives under the given costs, or `None` where it
/// refuses the costs or the inputs.
pub open spec fn kdf_output(
    memory_cost: u32,
    time_cost: u32,
    parallelism: u32,
    secret: Seq<u8>,
    password: Seq<u8>,
    salt: Seq<u8>,
) -> Option<Seq<u8>> {
    if argon2_params_fault(memory_cost, time_cost, parallelism) is Some {
        None
    } else {
        argon2id(password, salt, secret, memory_cost, time_cost, parallelism)
    }
}

/// How a derivation that binds a context ends.
pub enum ContextDerivation {
    /// The key derived.
    Key(Seq<u8>),
    /// Argon2 refused the costs, with this text.
    Refused(Seq<char>),
    /// Any other failure.
    Failed(CryptoError),
}

/// The number of lanes recommended on a machine with `cores` physical cores:
/// one per core, but at least one and at most four.
pub open spec fn recommended_lanes(cores: usize) -> u32 {
    if cores < 1 {
        1
    } else if cores > 4 {
        4
    } else {
        cores as u32
    }
}

/// Picks the number of lanes for a machine with `cores` physical cores.
pub fn recommended_parallelism_for(cores: usize) -> (lanes: u32)
    ensures
        lanes == recommended_lanes(cores),
        1 <= lanes <= 4,
{
    if cores < 1 {
        1
    } else if cores > 4 {
        4
    } else {
        cores as u32
    }
}

/// Picks the number of lanes for this machine.
pub(crate) fn get_recommended_parallelism() -> (lanes: u32)
    ensures
        1 <= lanes <= 4,
{
    recommended_parallelism_for(physical_cores())
}

/// The costs of key derivation: memory in KiB, passes, and lanes.
#[derive(Debug, PartialEq, Eq, Structural)]
pub struct KeyDerivation {
    memory_cost: u32,
    time_cost: u32,
    parallelism: u32,
}

impl Clone for KeyDerivation {
    fn clone(&self) -> (copy: Self)
        ensures
            copy == *self,
    {
        KeyDerivation {
            memory_cost: self.memory_cost,
            time_cost: self.time_cost,
            parallelism: self.parallelism,
        }
    }
}

impl Default for KeyDerivation {
    /// The recommended memory and passes, and as many lanes as this machine
    /// suggests.
    fn default() -> (settings: Self)
        ensures
            settings.memory_cost() == RECOMMENDED_MEMORY_COST,
            settings.time_cost() == RECOMMENDED_TIME_COST,
            1 <= settings.parallelism() <= 4,
            settings.is_valid(),
    {
        Self {
            memory_cost: RECOMMENDED_MEMORY_COST,
            time_cost: RECOMMENDED_TIME_COST,
            parallelism: get_recommended_parallelism(),
        }
    }
}

impl KeyDerivation {
    /// Memory cost in KiB.
    pub closed spec fn spec_memory_cost(&self) -> u32 {
        self.memory_cost
    }

    /// Number of passes.
    pub closed spec fn spec_time_cost(&self) -> u32 {
        self.time_cost
    }

    /// Number of lanes.
    pub closed spec fn spec_parallelism(&self) -> u32 {
        self.parallelism
    }

    /// Settings are valid when `check_params` accepts their costs.
    pub open spec fn is_valid(&self) -> bool {
        check_params(self.memory_cost(), self.time_cost(), self.parallelism()) is Ok
    }

    /// The outcome of `derive_key` on the given inputs.
    pub open spec fn derived(&self, password: Seq<u8>, salt: Seq<u8>) -> Result<
        Seq<u8>,
        CryptoError,
    > {
        if password.len() == 0 {
            Err(CryptoError::InvalidPasswordLength)
        } else if salt.len() != SALT_LENGTH {
            Err(CryptoError::InvalidSaltLength)
        } else {
            match kdf_output(
                self.memory_cost(),
                self.time_cost(),
                self.parallelism(),
                Seq::empty(),
                password,
                salt,
            ) {
                Some(key) => Ok(key),
                None => Err(CryptoError::KeyDerivationFailed),
            }
        }
    }

    /// The outcome of `derive_key_with_context` on the given inputs.
    pub open spec fn derived_with_context(
        &self,
        password: Seq<u8>,
        salt: Seq<u8>,
        context: Seq<u8>,
    ) -> ContextDerivation {
        if password.len() == 0 {
            ContextDerivation::Failed(CryptoError::InvalidPasswordLength)
        } else if salt.len() != SALT_LENGTH {
            ContextDerivation::Failed(CryptoError::InvalidSaltLength)
        } else if context.len() > MAX_KDF_INPUT_LENGTH {
            ContextDerivation::Failed(CryptoError::InvalidContextLength)
        } else {
            match argon2_params_fault(self.memory_cost(), self.time_cost(), self.parallelism()) {
                Some(text) => ContextDerivation::Refused(text),
                None => match argon2id(
                    password,
                    salt,
                    context,
                    self.memory_cost(),
                    self.time_cost(),
                    self.parallelism(),
                ) {
                    Some(key) => ContextDerivation::Key(key),
                    None => ContextDerivation::Failed(CryptoError::KeyDerivationFailed),
                },
            }
        }
    }

    /// Validated settings.
    pub fn new(memory_cost: u32, time_cost: u32, parallelism: u32) -> (made: Result<
        Self,
        CryptoError,
    >)
        ensures
            match made {
                Ok(settings) => {
                    &&& check_params(memory_cost, time_cost, parallelism) is Ok
                    &&& settings.memory_cost() == memory_cost
                    &&& settings.time_cost() == time_cost
                    &&& settings.parallelism() == parallelism
                },
                Err(e) => check_params(memory_cost, time_cost, parallelism) == Err::<
                    (),
                    CryptoError,
                >(e),
            },
    {
        match Self::validate_params(memory_cost, time_cost, parallelism) {
            Ok(()) => Ok(Self { memory_cost, time_cost, parallelism }),
            Err(e) => Err(e),
        }
    }

    /// Settings as they were stored or received, not yet validated.
    pub fn unchecked(memory_cost: u32, time_cost: u32, parallelism: u32) -> (settings: Self)
        ensures
            settings.memory_cost() == memory_cost,
            settings.time_cost() == time_cost,
            settings.parallelism() == parallelism,
    {
        Self { memory_cost, time_cost, parallelism }
    }

    fn validate_params(memory_cost: u32, time_cost: u32, parallelism: u32) -> (checked: Result<
        (),
        CryptoError,
    >)
        ensures
            checked == check_params(memory_cost, time_cost, parallelism),
    {
        if parallelism > MAX_COUNTABLE_LANES || memory_cost < 8 * parallelism {
            return Err(CryptoError::InvalidMemoryCost);
        }
        if memory_cost > MAX_MEMORY_COST {
            return Err(CryptoError::InvalidMemoryCost);
        }
        if time_cost < 1 || time_cost > MAX_TIME_COST {
            return Err(CryptoError::InvalidTimeCost);
        }
        if parallelism < 1 || parallelism > MAX_PARALLELISM {
            return Err(CryptoError::InvalidParallelism);
        }
        Ok(())
    }

    /// Checks these settings against the limits.
    pub fn validate(&self) -> (checked: Result<&Self, CryptoError>)
        ensures
            match checked {
                Ok(settings) => self.is_valid() && *settings == *self,
                Err(e) => check_params(self.memory_cost(), self.time_cost(), self.parallelism())
                    == Err::<(), CryptoError>(e),
            },
    {
        match Self::validate_params(self.memory_cost, self.time_cost, self.parallelism) {
            Ok(()) => Ok(self),
            Err(e) => Err(e),
        }
    }

    /// A fresh salt from the operating system's generator.
    pub fn generate_salt(&self) -> (salt: Result<Vec<u8>, CryptoError>)
        ensures
            match salt {
                Ok(bytes) => bytes@.len() == SALT_LENGTH,
                Err(e) => e is SaltGenerationFailed,
            },
    {
        match os_random_bytes(SALT_LENGTH) {
            Some(bytes) => Ok(bytes),
            None => Err(CryptoError::SaltGenerationFailed),
        }
    }

    /// Checks that a salt has the one length accepted.
    pub fn validate_salt(&self, salt: &[u8]) -> (checked: Result<(), CryptoError>)
        ensures
            match checked {
                Ok(()) => salt@.len() == SALT_LENGTH,
                Err(e) => salt@.len() != SALT_LENGTH && e is InvalidSaltLength,
            },
    {
        if salt.len() != SALT_LENGTH {
            return Err(CryptoError::InvalidSaltLength);
        }
        Ok(())
    }

    fn validate_context(&self, context: &[u8]) -> (checked: Result<(), CryptoError>)
        ensures
            match checked {
                Ok(()) => context@.len() <= MAX_KDF_INPUT_LENGTH,
                Err(e) => context@.len() > MAX_KDF_INPUT_LENGTH && e is InvalidContextLength,
            },
    {
        if context.len() > MAX_KDF_INPUT_LENGTH {
            return Err(CryptoError::InvalidContextLength);
        }
        Ok(())
    }

    /// Derives a 32-byte key from a password and a 16-byte salt.
    ///
    /// The same password, salt and settings always give the same key. With
    /// valid settings the derivation succeeds on every non-empty password of
    /// at most 4 GiB.
    pub fn derive_key(&self, password: &[u8], salt: &[u8]) -> (key: Result<
        SecureMemory<Vec<u8>>,
        CryptoError,
    >)
        ensures
            match key {
                Ok(k) => self.derived(password@, salt@) == Ok::<Seq<u8>, CryptoError>(k@)
                    && k@.len() == KEY_LENGTH,
                Err(e) => self.derived(password@, salt@) == Err::<Seq<u8>, CryptoError>(e),
            },
            key is Ok <==> 0 < password@.len() <= MAX_KDF_INPUT_LENGTH && salt@.len() == SALT_LENGTH
                && argon2_params_fault(self.memory_cost(), self.time_cost(), self.parallelism())
                is None,
            self.is_valid() && 0 < password@.len() <= MAX_KDF_INPUT_LENGTH && salt@.len()
                == SALT_LENGTH ==> key is Ok,
    {
        if password.is_empty() {
            return Err(CryptoError::InvalidPasswordLength);
        }
        match self.validate_salt(salt) {
            Ok(()) => {},
            Err(e) => {
                return Err(e);
            },
        }
        if self.parallelism > MAX_COUNTABLE_LANES {
            return Err(CryptoError::KeyDerivationFailed);
        }
        match argon2_check_params(self.memory_cost, self.time_cost, self.parallelism) {
            Some(_) => {
                return Err(CryptoError::KeyDerivationFailed);
            },
            None => {},
        }
        match argon2id_hash(self.memory_cost, self.time_cost, self.parallelism, password, salt) {
            Some(output_key) => Ok(SecureMemory::new(output_key)),
            None => Err(CryptoError::KeyDerivationFailed),
        }
    }

    /// Derives a 32-byte key from a password and a 16-byte salt, with a secret
    /// context mixed in so that keys of different domains differ. An empty
    /// password is refused, as in `derive_key`.
    pub fn derive_key_with_context(&self, password: &[u8], salt: &[u8], context: &[u8]) -> (key:
        Result<SecureMemory<Vec<u8>>, CryptoError>)
        ensures
            match key {
                Ok(k) => self.derived_with_context(password@, salt@, context@)
                    == ContextDerivation::Key(k@) && k@.len() == KEY_LENGTH,
                Err(CryptoError::Argon2Error(text)) => self.derived_with_context(
                    password@,
                    salt@,
                    context@,
                ) == ContextDerivation::Refused(text@),
                Err(e) => self.derived_with_context(password@, salt@, context@)
                    == ContextDerivation::Failed(e),
            },
            key is Ok <==> 0 < password@.len() <= MAX_KDF_INPUT_LENGTH && salt@.len()
                == SALT_LENGTH && context@.len() <= MAX_KDF_INPUT_LENGTH && argon2_params_fault(
                self.memory_cost(),
                self.time_cost(),
                self.parallelism(),
            ) is None,
            self.is_valid() && 0 < password@.len() <= MAX_KDF_INPUT_LENGTH && salt@.len()
                == SALT_LENGTH && context@.len() <= MAX_KDF_INPUT_LENGTH ==> key is Ok,
    {
        if password.is_empty() {
            return Err(CryptoError::InvalidPasswordLength);
        }
        match self.validate_salt(salt) {
            Ok(()) => {},
            Err(e) => {
                return Err(e);
            },
        }
        match self.validate_context(context) {
            Ok(()) => {},
            Err(e) => {
                return Err(e);
            },
        }
        if self.parallelism > MAX_COUNTABLE_LANES {
            return Err(CryptoError::Argon2Error("memory cost is too small".to_string()));
        }
        match argon2_check_params(self.memory_cost, self.time_cost, self.parallelism) {
            Some(text) => {
                return Err(CryptoError::Argon2Error(text));
            },
            None => {},
        }
        match argon2id_hash_keyed(
            self.memory_cost,
            self.time_cost,
            self.parallelism,
            context,
            password,
            salt,
        ) {
            Some(output_key) => Ok(SecureMemory::new(output_key)),
            None => Err(CryptoError::KeyDerivationFailed),
        }
    }

    /// Memory cost in KiB.
    #[verifier::when_used_as_spec(spec_memory_cost)]
    pub fn memory_cost(&self) -> (cost: u32)
        ensures
            cost == self.memory_cost(),
    {
        self.memory_cost
    }

    /// Number of passes.
    #[verifier::when_used_as_spec(spec_time_cost)]
    pub fn time_cost(&self) -> (cost: u32)
        ensures
            cost == self.time_cost(),
    {
        self.time_cost
    }

    /// Number of lanes.
    #[verifier::when_used_as_spec(spec_parallelism)]
    pub fn parallelism(&self) -> (lanes: u32)
        ensures
            lanes == self.parallelism(),
    {
        self.parallelism
    }
}

/// Derivation is a function of its inputs: the same password, salt and
/// costs always give the same key, or the same failure.
pub proof fn lemma_derivation_is_deterministic(
    first: KeyDerivation,
    second: KeyDerivation,
    password: Seq<u8>,
    salt: Seq<u8>,
)
    requires
        first.memory_cost() == second.memory_cost(),
        first.time_cost() == second.time_cost(),
        first.parallelism() == second.parallelism(),
    ensures
        first.derived(password, salt) == second.derived(password, salt),
{
}

/// Settings that pass validation are costs that Argon2 accepts.
pub proof fn lemma_valid_settings_are_accepted(settings: KeyDerivation)
    requires
        settings.is_valid(),
    ensures
        argon2_params_fault(
            settings.memory_cost(),
            settings.time_cost(),
            settings.parallelism(),
        ) is None,
{
}

} // verus!
