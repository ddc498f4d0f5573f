//! The group record and its two append-only registries.

use vstd::prelude::*;
use crate::address::Address;
use crate::error::{QuasarError, QuasarErrorCode, SourceFileId};
use crate::fixed_point::I80F48;

verus! {

/// Capacity of the base-token registry.
pub const MAX_BASE_TOKENS: usize = 16;

/// Capacity of the leverage-token registry.
pub const MAX_LEVERAGE_TOKENS: usize = 32;

/// Decimal precision of every leverage token's mint.
pub const LEVERAGE_TOKEN_DECIMALS: u8 = 6;

/// The kind of a persistent record.
#[derive(Clone, Copy, Debug, PartialEq, Eq, Structural)]
pub enum DataType {
    QuasarGroup,
}

/// Kind, schema version and initialized flag of a record.
#[derive(Clone, Copy, Debug, PartialEq, Eq, Structural)]
pub struct MetaData {
    pub data_type: DataType,
    pub version: u8,
    pub is_initialized: bool,
}

impl MetaData {
    pub fn new(data_type: DataType, version: u8, is_initialized: bool) -> (meta_data: MetaData)
        ensures
            meta_data == (MetaData { data_type, version, is_initialized }),
    {
        MetaData { data_type, version, is_initialized }
    }
}

/// A registered collateral asset.
#[derive(Clone, Copy, Debug, PartialEq, Eq)]
pub struct BaseToken {
    /// Identity of the underlying asset.
    pub mint: Address,
    /// Decimal precision of the asset.
    pub decimals: u8,
    /// Identity of the bound price source.
    pub oracle: Address,
}

/// A registered synthetic instrument.
#[derive(Clone, Copy, Debug, PartialEq, Eq)]
pub struct LeverageToken {
    /// Identity of the instrument's own mint.
    pub mint: Address,
    /// Identity of the base token that the instrument tracks.
    pub base_token_mint: Address,
    /// Target leverage ratio.
    pub target_leverage: I80F48,
    /// Identity of the bound margin account.
    pub mango_account: Address,
    /// Identity of the bound margin market.
    pub mango_perp_market: Address,
}

/// No two entries share an asset identity.
pub open spec fn base_tokens_distinct(tokens: Seq<BaseToken>) -> bool {
    forall|i: int, j: int| 0 <= i < j < tokens.len() ==> tokens[i].mint != tokens[j].mint
}

/// No two entries share the pair of base token and target leverage.
pub open spec fn leverage_tokens_distinct(tokens: Seq<LeverageToken>) -> bool {
    forall|i: int, j: int|
        0 <= i < j < tokens.len() ==> !(tokens[i].base_token_mint == tokens[j].base_token_mint
            && tokens[i].target_leverage == tokens[j].target_leverage)
}

/// Some entry is registered for the asset `mint`.
pub open spec fn has_base_token(tokens: Seq<BaseToken>, mint: Address) -> bool {
    exists|i: int| 0 <= i < tokens.len() && tokens[i].mint == mint
}

/// `i` is the first entry registered for the asset `mint`.
pub open spec fn base_token_at(tokens: Seq<BaseToken>, mint: Address, i: int) -> bool {
    &&& 0 <= i < tokens.len()
    &&& tokens[i].mint == mint
    &&& forall|j: int| 0 <= j < i ==> tokens[j].mint != mint
}

/// Some entry is registered for the pair `(base_token_mint, target_leverage)`.
pub open spec fn has_leverage_token(tokens: Seq<LeverageToken>, base_token_mint: Address, target_leverage: I80F48) -> bool {
    exists|i: int|
        0 <= i < tokens.len() && tokens[i].base_token_mint == base_token_mint
            && tokens[i].target_leverage == target_leverage
}

/// `i` is the first entry registered for the pair `(base_token_mint, target_leverage)`.
pub open spec fn leverage_token_at(tokens: Seq<LeverageToken>, base_token_mint: Address, target_leverage: I80F48, i: int) -> bool {
    &&& 0 <= i < tokens.len()
    &&& tokens[i].base_token_mint == base_token_mint
    &&& tokens[i].target_leverage == target_leverage
    &&& forall|j: int|
        0 <= j < i ==> !(tokens[j].base_token_mint == base_token_mint && tokens[j].target_leverage
            == target_leverage)
}

/// The mathematical content of a group record.
pub struct QuasarGroupView {
    pub meta_data: MetaData,
    pub admin_key: Address,
    pub signer_key: Address,
    pub signer_nonce: u64,
    pub mango_program_id: Address,
    pub base_tokens: Seq<BaseToken>,
    pub leverage_tokens: Seq<LeverageToken>,
}

impl QuasarGroupView {
    /// The registry invariants: both registries within capacity and free of
    /// duplicates.
    pub open spec fn wf(self) -> bool {
        &&& self.base_tokens.len() <= MAX_BASE_TOKENS
        &&& self.leverage_tokens.len() <= MAX_LEVERAGE_TOKENS
        &&& base_tokens_distinct(self.base_tokens)
        &&& leverage_tokens_distinct(self.leverage_tokens)
    }

    /// The record after the registration of one more base token.
    pub open spec fn with_base_token(self, token: BaseToken) -> QuasarGroupView {
        QuasarGroupView { base_tokens: self.base_tokens.push(token), ..self }
    }

    /// The record after the registration of one more leverage token.
    pub open spec fn with_leverage_token(self, token: LeverageToken) -> QuasarGroupView {
        QuasarGroupView { leverage_tokens: self.leverage_tokens.push(token), ..self }
    }

    /// The record after its one-time set-up.
    pub open spec fn initialized(self, admin_key: Address, signer_key: Address, signer_nonce: u64, mango_program_id: Address) -> QuasarGroupView {
        QuasarGroupView {
            meta_data: MetaData { data_type: DataType::QuasarGroup, version: 0, is_initialized: true },
            admin_key,
            signer_key,
            signer_nonce,
            mango_program_id,
            ..self
        }
    }

    /// What an attempt to register a base token gives: the code of the
    /// refusal, or nothing where the token is appended.
    pub open spec fn base_token_refusal(self, token: BaseToken) -> Option<QuasarErrorCode> {
        if has_base_token(self.base_tokens, token.mint) {
            Some(QuasarErrorCode::DuplicateBaseToken)
        } else if self.base_tokens.len() >= MAX_BASE_TOKENS {
            Some(QuasarErrorCode::BaseTokenRegistryFull)
        } else {
            None
        }
    }

    /// What an attempt to register a leverage token gives: the code of the
    /// refusal, or nothing where the token is appended.
    pub open spec fn leverage_token_refusal(self, token: LeverageToken) -> Option<QuasarErrorCode> {
        if !has_base_token(self.base_tokens, token.base_token_mint) {
            Some(QuasarErrorCode::BaseTokenNotFound)
        } else if has_leverage_token(self.leverage_tokens, token.base_token_mint, token.target_leverage) {
            Some(QuasarErrorCode::DuplicateLeverageToken)
        } else if self.leverage_tokens.len() >= MAX_LEVERAGE_TOKENS {
            Some(QuasarErrorCode::LeverageTokenRegistryFull)
        } else {
            None
        }
    }

    /// The record after an attempt to register a base token: unchanged where
    /// the attempt is refused.
    pub open spec fn after_base_token(self, token: BaseToken) -> QuasarGroupView {
        if self.base_token_refusal(token) is None {
            self.with_base_token(token)
        } else {
            self
        }
    }

    /// The record after an attempt to register a leverage token: unchanged
    /// where the attempt is refused.
    pub open spec fn after_leverage_token(self, token: LeverageToken) -> QuasarGroupView {
        if self.leverage_token_refusal(token) is None {
            self.with_leverage_token(token)
        } else {
            self
        }
    }

    /// The record after a series of attempts to register base tokens.
    pub open spec fn after_base_tokens(self, tokens: Seq<BaseToken>) -> QuasarGroupView
        decreases tokens.len(),
    {
        if tokens.len() == 0 {
            self
        } else {
            self.after_base_tokens(tokens.drop_last()).after_base_token(tokens.last())
        }
    }

    /// The record after a series of attempts to register leverage tokens.
    pub open spec fn after_leverage_tokens(self, tokens: Seq<LeverageToken>) -> QuasarGroupView
        decreases tokens.len(),
    {
        if tokens.len() == 0 {
            self
        } else {
            self.after_leverage_tokens(tokens.drop_last()).after_leverage_token(tokens.last())
        }
    }
}

/// The root record of one administrative domain.
#[derive(Debug, PartialEq, Eq)]
pub struct QuasarGroup {
    meta_data: MetaData,
    admin_key: Address,
    signer_key: Address,
    signer_nonce: u64,
    mango_program_id: Address,
    base_tokens: Vec<BaseToken>,
    leverage_tokens: Vec<LeverageToken>,
}

impl View for QuasarGroup {
    type V = QuasarGroupView;

    closed spec fn view(&self) -> QuasarGroupView {
        QuasarGroupView {
            meta_data: self.meta_data,
            admin_key: self.admin_key,
            signer_key: self.signer_key,
            signer_nonce: self.signer_nonce,
            mango_program_id: self.mango_program_id,
            base_tokens: self.base_tokens@,
            leverage_tokens: self.leverage_tokens@,
        }
    }
}

/// A copy of a registry.
fn copy_slots<T: Copy>(slots: &Vec<T>) -> (copy: Vec<T>)
    ensures
        copy@ == slots@,
{
    let mut copy: Vec<T> = Vec::new();
    let mut i: usize = 0;
    while i < slots.len()
        invariant
            i <= slots@.len(),
            copy@ == slots@.take(i as int),
        decreases slots@.len() - i,
    {
        copy.push(slots[i]);
        assert(slots@.take(i + 1) =~= slots@.take(i as int).push(slots@[i as int]));
        i += 1;
    }
    assert(slots@.take(i as int) =~= slots@);
    copy
}

impl Clone for QuasarGroup {
    fn clone(&self) -> (copy: QuasarGroup)
        ensures
            copy@ == self@,
    {
        proof {
            use_type_invariant(self);
        }
        QuasarGroup {
            meta_data: self.meta_data,
            admin_key: self.admin_key,
            signer_key: self.signer_key,
            signer_nonce: self.signer_nonce,
            mango_program_id: self.mango_program_id,
            base_tokens: copy_slots(&self.base_tokens),
            leverage_tokens: copy_slots(&self.leverage_tokens),
        }
    }
}

/// The error that a failed check of the registry raises.
pub open spec fn state_error(code: QuasarErrorCode, step: u32) -> QuasarError {
    QuasarError::at(code, SourceFileId::State, step)
}

/// Index of the first of the first `end` entries that is registered for `mint`.
fn position_of_mint(tokens: &Vec<BaseToken>, end: usize, mint: &Address) -> (found: Option<usize>)
    requires
        end <= tokens@.len(),
    ensures
        match found {
            Some(i) => i < end && base_token_at(tokens@.take(end as int), *mint, i as int),
            None => !has_base_token(tokens@.take(end as int), *mint),
        },
{
    let mut i: usize = 0;
    while i < end
        invariant
            i <= end <= tokens@.len(),
            forall|j: int| 0 <= j < i ==> tokens@[j].mint != *mint,
        decreases end - i,
    {
        if tokens[i].mint.equals(mint) {
            return Some(i);
        }
        i += 1;
    }
    None
}

/// Index of the first of the first `end` entries that is registered for the
/// pair `(base_token_mint, target_leverage)`.
fn position_of_pair(tokens: &Vec<LeverageToken>, end: usize, base_token_mint: &Address, target_leverage: I80F48) -> (found: Option<usize>)
    requires
        end <= tokens@.len(),
    ensures
        match found {
            Some(i) => i < end && leverage_token_at(
                tokens@.take(end as int),
                *base_token_mint,
                target_leverage,
                i as int,
            ),
            None => !has_leverage_token(tokens@.take(end as int), *base_token_mint, target_leverage),
        },
{
    let mut i: usize = 0;
    while i < end
        invariant
            i <= end <= tokens@.len(),
            forall|j: int|
                0 <= j < i ==> !(tokens@[j].base_token_mint == *base_token_mint
                    && tokens@[j].target_leverage == target_leverage),
        decreases end - i,
    {
        if tokens[i].base_token_mint.equals(base_token_mint) && tokens[i].target_leverage.bits
            == target_leverage.bits {
            return Some(i);
        }
        i += 1;
    }
    None
}

/// Whether no two of the entries share an asset identity.
pub fn check_base_tokens_distinct(tokens: &Vec<BaseToken>) -> (ok: bool)
    ensures
        ok == base_tokens_distinct(tokens@),
{
    let mut j: usize = 0;
    while j < tokens.len()
        invariant
            j <= tokens@.len(),
            base_tokens_distinct(tokens@.take(j as int)),
        decreases tokens@.len() - j,
    {
        let mint = tokens[j].mint;
        match position_of_mint(tokens, j, &mint) {
            Some(i) => {
                assert(tokens@.take(j as int)[i as int].mint == tokens@[j as int].mint);
                return false;
            },
            None => {
                proof {
                    let seen = tokens@.take(j as int);
                    let next = tokens@.take(j + 1);
                    assert forall|a: int, b: int| 0 <= a < b < next.len() implies next[a].mint
                        != next[b].mint by {
                        assert(seen[a] == next[a]);
                        if b < j {
                            assert(seen[b] == next[b]);
                        }
                    }
                }
            },
        }
        j += 1;
    }
    assert(tokens@.take(j as int) =~= tokens@);
    true
}

/// Whether no two of the entries share the pair of base token and target
/// leverage.
pub fn check_leverage_tokens_distinct(tokens: &Vec<LeverageToken>) -> (ok: bool)
    ensures
        ok == leverage_tokens_distinct(tokens@),
{
    let mut j: usize = 0;
    while j < tokens.len()
        invariant
            j <= tokens@.len(),
            leverage_tokens_distinct(tokens@.take(j as int)),
        decreases tokens@.len() - j,
    {
        let base_token_mint = tokens[j].base_token_mint;
        let target_leverage = tokens[j].target_leverage;
        match position_of_pair(tokens, j, &base_token_mint, target_leverage) {
            Some(i) => {
                assert(tokens@.take(j as int)[i as int].base_token_mint == tokens@[j as int].base_token_mint);
                assert(tokens@.take(j as int)[i as int].target_leverage == tokens@[j as int].target_leverage);
                return false;
            },
            None => {
                proof {
                    let seen = tokens@.take(j as int);
                    let next = tokens@.take(j + 1);
                    assert forall|a: int, b: int| 0 <= a < b < next.len() implies !(
                    next[a].base_token_mint == next[b].base_token_mint && next[a].target_leverage
                        == next[b].target_leverage) by {
                        assert(seen[a] == next[a]);
                        if b < j {
                            assert(seen[b] == next[b]);
                        }
                    }
                }
            },
        }
        j += 1;
    }
    assert(tokens@.take(j as int) =~= tokens@);
    true
}

impl QuasarGroup {
    /// The registry invariants, which every record satisfies at all times.
    #[verifier::type_invariant]
    pub open spec fn wf(&self) -> bool {
        self@.wf()
    }

    /// A record as a freshly allocated account holds it: not set up, every
    /// identity zero, both registries empty.
    pub fn new() -> (group: QuasarGroup)
        ensures
            group.wf(),
            group@.meta_data == (MetaData {
                data_type: DataType::QuasarGroup,
                version: 0,
                is_initialized: false,
            }),
            group@.admin_key@ == Address::zero_bytes(),
            group@.signer_key@ == Address::zero_bytes(),
            group@.mango_program_id@ == Address::zero_bytes(),
            group@.signer_nonce == 0,
            group@.base_tokens == Seq::<BaseToken>::empty(),
            group@.leverage_tokens == Seq::<LeverageToken>::empty(),
    {
        let zero = Address::zero();
        QuasarGroup {
            meta_data: MetaData { data_type: DataType::QuasarGroup, version: 0, is_initialized: false },
            admin_key: zero,
            signer_key: zero,
            signer_nonce: 0,
            mango_program_id: zero,
            base_tokens: Vec::new(),
            leverage_tokens: Vec::new(),
        }
    }

    /// The error with which [`QuasarGroup::from_parts`] refuses registries,
    /// if it refuses them.
    pub open spec fn parts_refusal(base_tokens: Seq<BaseToken>, leverage_tokens: Seq<LeverageToken>) -> Option<QuasarError> {
        if base_tokens.len() > MAX_BASE_TOKENS {
            Some(state_error(QuasarErrorCode::BaseTokenRegistryFull, 1))
        } else if leverage_tokens.len() > MAX_LEVERAGE_TOKENS {
            Some(state_error(QuasarErrorCode::LeverageTokenRegistryFull, 2))
        } else if !base_tokens_distinct(base_tokens) {
            Some(state_error(QuasarErrorCode::DuplicateBaseToken, 3))
        } else if !leverage_tokens_distinct(leverage_tokens) {
            Some(state_error(QuasarErrorCode::DuplicateLeverageToken, 4))
        } else {
            None
        }
    }

    /// Builds a record from stored parts, refusing registries that break an
    /// invariant.
    pub fn from_parts(
        meta_data: MetaData,
        admin_key: Address,
        signer_key: Address,
        signer_nonce: u64,
        mango_program_id: Address,
        base_tokens: Vec<BaseToken>,
        leverage_tokens: Vec<LeverageToken>,
    ) -> (r: Result<QuasarGroup, QuasarError>)
        ensures
            match r {
                Ok(group) => {
                    &&& Self::parts_refusal(base_tokens@, leverage_tokens@) is None
                    &&& group.wf()
                    &&& group@ == (QuasarGroupView {
                        meta_data,
                        admin_key,
                        signer_key,
                        signer_nonce,
                        mango_program_id,
                        base_tokens: base_tokens@,
                        leverage_tokens: leverage_tokens@,
                    })
                },
                Err(e) => Self::parts_refusal(base_tokens@, leverage_tokens@) == Some(e),
            },
    {
        if base_tokens.len() > MAX_BASE_TOKENS {
            return Err(QuasarError::new(QuasarErrorCode::BaseTokenRegistryFull, SourceFileId::State, 1));
        }
        if leverage_tokens.len() > MAX_LEVERAGE_TOKENS {
            return Err(QuasarError::new(QuasarErrorCode::LeverageTokenRegistryFull, SourceFileId::State, 2));
        }
        if !check_base_tokens_distinct(&base_tokens) {
            return Err(QuasarError::new(QuasarErrorCode::DuplicateBaseToken, SourceFileId::State, 3));
        }
        if !check_leverage_tokens_distinct(&leverage_tokens) {
            return Err(QuasarError::new(QuasarErrorCode::DuplicateLeverageToken, SourceFileId::State, 4));
        }
        Ok(
            QuasarGroup {
                meta_data,
                admin_key,
                signer_key,
                signer_nonce,
                mango_program_id,
                base_tokens,
                leverage_tokens,
            },
        )
    }

    pub fn meta_data(&self) -> (meta_data: MetaData)
        ensures
            meta_data == self@.meta_data,
    {
        self.meta_data
    }

    pub fn is_initialized(&self) -> (yes: bool)
        ensures
            yes == self@.meta_data.is_initialized,
    {
        self.meta_data.is_initialized
    }

    pub fn admin_key(&self) -> (key: Address)
        ensures
            key == self@.admin_key,
    {
        self.admin_key
    }

    pub fn signer_key(&self) -> (key: Address)
        ensures
            key == self@.signer_key,
    {
        self.signer_key
    }

    pub fn signer_nonce(&self) -> (nonce: u64)
        ensures
            nonce == self@.signer_nonce,
    {
        self.signer_nonce
    }

    pub fn mango_program_id(&self) -> (key: Address)
        ensures
            key == self@.mango_program_id,
    {
        self.mango_program_id
    }

    pub fn num_base_tokens(&self) -> (n: usize)
        ensures
            n == self@.base_tokens.len(),
    {
        self.base_tokens.len()
    }

    pub fn num_leverage_tokens(&self) -> (n: usize)
        ensures
            n == self@.leverage_tokens.len(),
    {
        self.leverage_tokens.len()
    }

    /// The populated slots of the base-token registry, in order.
    pub fn base_tokens(&self) -> (tokens: &Vec<BaseToken>)
        ensures
            tokens@ == self@.base_tokens,
    {
        &self.base_tokens
    }

    /// The populated slots of the leverage-token registry, in order.
    pub fn leverage_tokens(&self) -> (tokens: &Vec<LeverageToken>)
        ensures
            tokens@ == self@.leverage_tokens,
    {
        &self.leverage_tokens
    }

    /// Index of the base token registered for the asset `mint`.
    pub fn find_base_token_index(&self, mint: &Address) -> (found: Option<usize>)
        ensures
            match found {
                Some(i) => base_token_at(self@.base_tokens, *mint, i as int),
                None => !has_base_token(self@.base_tokens, *mint),
            },
    {
        let found = position_of_mint(&self.base_tokens, self.base_tokens.len(), mint);
        assert(self.base_tokens@.take(self.base_tokens@.len() as int) =~= self.base_tokens@);
        found
    }

    /// Index of the leverage token registered for the pair
    /// `(base_token_mint, target_leverage)`.
    pub fn find_leverage_token_index(&self, base_token_mint: &Address, target_leverage: I80F48) -> (found: Option<usize>)
        ensures
            match found {
                Some(i) => leverage_token_at(
                    self@.leverage_tokens,
                    *base_token_mint,
                    target_leverage,
                    i as int,
                ),
                None => !has_leverage_token(self@.leverage_tokens, *base_token_mint, target_leverage),
            },
    {
        let found = position_of_pair(
            &self.leverage_tokens,
            self.leverage_tokens.len(),
            base_token_mint,
            target_leverage,
        );
        assert(self.leverage_tokens@.take(self.leverage_tokens@.len() as int) =~= self.leverage_tokens@);
        found
    }

    /// Sets the record up, once.  A record that is already set up is left as
    /// it is and the call fails.
    pub fn initialize(&mut self, admin_key: Address, signer_key: Address, signer_nonce: u64, mango_program_id: Address) -> (r: Result<(), QuasarError>)
        ensures
            final(self).wf(),
            old(self)@.meta_data.is_initialized ==> r == Err::<(), QuasarError>(
                state_error(QuasarErrorCode::GroupAlreadyInitialized, 5),
            ) && final(self)@ == old(self)@,
            !old(self)@.meta_data.is_initialized ==> r == Ok::<(), QuasarError>(()) && final(self)@
                == old(self)@.initialized(admin_key, signer_key, signer_nonce, mango_program_id),
    {
        proof {
            use_type_invariant(&*self);
        }
        if self.meta_data.is_initialized {
            return Err(QuasarError::new(QuasarErrorCode::GroupAlreadyInitialized, SourceFileId::State, 5));
        }
        self.signer_nonce = signer_nonce;
        self.signer_key = signer_key;
        self.mango_program_id = mango_program_id;
        self.admin_key = admin_key;
        self.meta_data = MetaData::new(DataType::QuasarGroup, 0, true);
        Ok(())
    }

    /// Appends a base token to the first empty slot and returns the slot's
    /// index.  An asset that is already registered, or a full registry,
    /// is refused and the record stays as it is.
    pub fn add_base_token(&mut self, token: BaseToken) -> (r: Result<usize, QuasarError>)
        ensures
            final(self).wf(),
            final(self)@ == old(self)@.after_base_token(token),
            match old(self)@.base_token_refusal(token) {
                Some(code) => r == Err::<usize, QuasarError>(state_error(code, 6)),
                None => r == Ok::<usize, QuasarError>(old(self)@.base_tokens.len() as usize),
            },
    {
        proof {
            use_type_invariant(&*self);
        }
        if self.find_base_token_index(&token.mint).is_some() {
            return Err(QuasarError::new(QuasarErrorCode::DuplicateBaseToken, SourceFileId::State, 6));
        }
        let index = self.base_tokens.len();
        if index >= MAX_BASE_TOKENS {
            return Err(QuasarError::new(QuasarErrorCode::BaseTokenRegistryFull, SourceFileId::State, 6));
        }
        proof {
            lemma_push_base_token_distinct(self.base_tokens@, token);
        }
        let mut base_tokens: Vec<BaseToken> = Vec::new();
        std::mem::swap(&mut base_tokens, &mut self.base_tokens);
        base_tokens.push(token);
        self.base_tokens = base_tokens;
        Ok(index)
    }

    /// Appends a leverage token to the first empty slot and returns the
    /// slot's index.  A token whose base token is not registered, a pair that
    /// is already registered, or a full registry, is refused and the record
    /// stays as it is.
    pub fn add_leverage_token(&mut self, token: LeverageToken) -> (r: Result<usize, QuasarError>)
        ensures
            final(self).wf(),
            final(self)@ == old(self)@.after_leverage_token(token),
            match old(self)@.leverage_token_refusal(token) {
                Some(code) => r == Err::<usize, QuasarError>(state_error(code, 7)),
                None => r == Ok::<usize, QuasarError>(old(self)@.leverage_tokens.len() as usize),
            },
    {
        proof {
            use_type_invariant(&*self);
        }
        if self.find_base_token_index(&token.base_token_mint).is_none() {
            return Err(QuasarError::new(QuasarErrorCode::BaseTokenNotFound, SourceFileId::State, 7));
        }
        if self.find_leverage_token_index(&token.base_token_mint, token.target_leverage).is_some() {
            return Err(QuasarError::new(QuasarErrorCode::DuplicateLeverageToken, SourceFileId::State, 7));
        }
        let index = self.leverage_tokens.len();
        if index >= MAX_LEVERAGE_TOKENS {
            return Err(QuasarError::new(QuasarErrorCode::LeverageTokenRegistryFull, SourceFileId::State, 7));
        }
        proof {
            lemma_push_leverage_token_distinct(self.leverage_tokens@, token);
        }
        let mut leverage_tokens: Vec<LeverageToken> = Vec::new();
        std::mem::swap(&mut leverage_tokens, &mut self.leverage_tokens);
        leverage_tokens.push(token);
        self.leverage_tokens = leverage_tokens;
        Ok(index)
    }
}

/// Appending an asset that is not yet registered keeps the assets distinct.
pub proof fn lemma_push_base_token_distinct(tokens: Seq<BaseToken>, token: BaseToken)
    requires
        base_tokens_distinct(tokens),
        !has_base_token(tokens, token.mint),
    ensures
        base_tokens_distinct(tokens.push(token)),
{
    let pushed = tokens.push(token);
    assert forall|i: int, j: int| 0 <= i < j < pushed.len() implies pushed[i].mint != pushed[j].mint by {
        if j < tokens.len() {
            assert(tokens[i].mint != tokens[j].mint);
        } else {
            assert(pushed[i] == tokens[i]);
        }
    }
}

/// Appending a pair that is not yet registered keeps the pairs distinct.
pub proof fn lemma_push_leverage_token_distinct(tokens: Seq<LeverageToken>, token: LeverageToken)
    requires
        leverage_tokens_distinct(tokens),
        !has_leverage_token(tokens, token.base_token_mint, token.target_leverage),
    ensures
        leverage_tokens_distinct(tokens.push(token)),
{
    let pushed = tokens.push(token);
    assert forall|i: int, j: int| 0 <= i < j < pushed.len() implies !(pushed[i].base_token_mint
        == pushed[j].base_token_mint && pushed[i].target_leverage == pushed[j].target_leverage) by {
        if j < tokens.len() {
            assert(pushed[i] == tokens[i] && pushed[j] == tokens[j]);
        } else {
            assert(pushed[i] == tokens[i]);
        }
    }
}

/// One registry continues another: every slot of `before` is still there,
/// at its index and unchanged.
pub open spec fn extends<T>(after: Seq<T>, before: Seq<T>) -> bool {
    &&& before.len() <= after.len()
    &&& forall|i: int| 0 <= i < before.len() ==> after[i] == before[i]
}

/// An attempt to register a base token keeps the invariants.  Where it is
/// refused the record does not change; where it is accepted the count grows
/// by exactly one, the new entry stands at the index that the count had
/// before, and no other field or slot changes.
pub proof fn lemma_base_token_registration(group: QuasarGroupView, token: BaseToken)
    requires
        group.wf(),
    ensures
        group.after_base_token(token).wf(),
        group.base_token_refusal(token) is Some ==> group.after_base_token(token) == group,
        group.base_token_refusal(token) is None ==> {
            let after = group.after_base_token(token);
            &&& after.base_tokens.len() == group.base_tokens.len() + 1
            &&& after.base_tokens[group.base_tokens.len() as int] == token
            &&& extends(after.base_tokens, group.base_tokens)
            &&& after == group.with_base_token(token)
        },
{
    if group.base_token_refusal(token) is None {
        lemma_push_base_token_distinct(group.base_tokens, token);
    }
}

/// An attempt to register a leverage token keeps the invariants.  Where it
/// is refused the record does not change; where it is accepted the count
/// grows by exactly one, the new entry stands at the index that the count had
/// before, and no other field or slot changes.
pub proof fn lemma_leverage_token_registration(group: QuasarGroupView, token: LeverageToken)
    requires
        group.wf(),
    ensures
        group.after_leverage_token(token).wf(),
        group.leverage_token_refusal(token) is Some ==> group.after_leverage_token(token) == group,
        group.leverage_token_refusal(token) is None ==> {
            let after = group.after_leverage_token(token);
            &&& after.leverage_tokens.len() == group.leverage_tokens.len() + 1
            &&& after.leverage_tokens[group.leverage_tokens.len() as int] == token
            &&& extends(after.leverage_tokens, group.leverage_tokens)
            &&& after == group.with_leverage_token(token)
        },
{
    if group.leverage_token_refusal(token) is None {
        lemma_push_leverage_token_distinct(group.leverage_tokens, token);
    }
}

/// Whatever series of base-token registrations is attempted on a record that
/// satisfies the invariants, the record satisfies them afterwards: no two
/// populated slots share an asset identity, the capacity is respected, and
/// the registry only ever grows at its end.
pub proof fn lemma_base_token_registrations(group: QuasarGroupView, tokens: Seq<BaseToken>)
    requires
        group.wf(),
    ensures
        group.after_base_tokens(tokens).wf(),
        base_tokens_distinct(group.after_base_tokens(tokens).base_tokens),
        extends(group.after_base_tokens(tokens).base_tokens, group.base_tokens),
        group.after_base_tokens(tokens).leverage_tokens == group.leverage_tokens,
    decreases tokens.len(),
{
    if tokens.len() > 0 {
        lemma_base_token_registrations(group, tokens.drop_last());
        lemma_base_token_registration(group.after_base_tokens(tokens.drop_last()), tokens.last());
    }
}

/// Whatever series of leverage-token registrations is attempted on a record
/// that satisfies the invariants, the record satisfies them afterwards: no
/// two populated slots share the pair of base token and target leverage, the
/// capacity is respected, and the registry only ever grows at its end.
pub proof fn lemma_leverage_token_registrations(group: QuasarGroupView, tokens: Seq<LeverageToken>)
    requires
        group.wf(),
    ensures
        group.after_leverage_tokens(tokens).wf(),
        leverage_tokens_distinct(group.after_leverage_tokens(tokens).leverage_tokens),
        extends(group.after_leverage_tokens(tokens).leverage_tokens, group.leverage_tokens),
        group.after_leverage_tokens(tokens).base_tokens == group.base_tokens,
    decreases tokens.len(),
{
    if tokens.len() > 0 {
        lemma_leverage_token_registrations(group, tokens.drop_last());
        lemma_leverage_token_registration(
            group.after_leverage_tokens(tokens.drop_last()),
            tokens.last(),
        );
    }
}

/// A registry that is full refuses every further base token, and stays as it
/// is.
pub proof fn lemma_full_base_registry_refuses(group: QuasarGroupView, token: BaseToken)
    requires
        group.wf(),
        group.base_tokens.len() == MAX_BASE_TOKENS,
    ensures
        group.base_token_refusal(token) is Some,
        !has_base_token(group.base_tokens, token.mint) ==> group.base_token_refusal(token) == Some(
            QuasarErrorCode::BaseTokenRegistryFull,
        ),
        group.after_base_token(token) == group,
{
}

/// Set-up happens once: a record that is set up stays marked so under
/// every registration, and no registration changes who administers it.
pub proof fn lemma_registrations_keep_identity(group: QuasarGroupView, base_tokens: Seq<BaseToken>, leverage_tokens: Seq<LeverageToken>)
    ensures
        ({
            let after = group.after_base_tokens(base_tokens).after_leverage_tokens(leverage_tokens);
            &&& after.meta_data == group.meta_data
            &&& after.admin_key == group.admin_key
            &&& after.signer_key == group.signer_key
            &&& after.signer_nonce == group.signer_nonce
            &&& after.mango_program_id == group.mango_program_id
        }),
{
    lemma_base_tokens_keep_identity(group, base_tokens);
    lemma_leverage_tokens_keep_identity(group.after_base_tokens(base_tokens), leverage_tokens);
}

proof fn lemma_base_tokens_keep_identity(group: QuasarGroupView, tokens: Seq<BaseToken>)
    ensures
        ({
            let after = group.after_base_tokens(tokens);
            &&& after.meta_data == group.meta_data
            &&& after.admin_key == group.admin_key
            &&& after.signer_key == group.signer_key
            &&& after.signer_nonce == group.signer_nonce
            &&& after.mango_program_id == group.mango_program_id
        }),
    decreases tokens.len(),
{
    if tokens.len() > 0 {
        lemma_base_tokens_keep_identity(group, tokens.drop_last());
    }
}

proof fn lemma_leverage_tokens_keep_identity(group: QuasarGroupView, tokens: Seq<LeverageToken>)
    ensures
        ({
            let after = group.after_leverage_tokens(tokens);
            &&& after.meta_data == group.meta_data
            &&& after.admin_key == group.admin_key
            &&& after.signer_key == group.signer_key
            &&& after.signer_nonce == group.signer_nonce
            &&& after.mango_program_id == group.mango_program_id
        }),
    decreases tokens.len(),
{
    if tokens.len() > 0 {
        lemma_leverage_tokens_keep_identity(group, tokens.drop_last());
    }
}

} // verus!
