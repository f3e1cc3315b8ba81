//! The client-transaction decision: validation, per-client limits, and the
//! resulting balance movement.

use vstd::prelude::*;
use vstd::string::StringSliceAdditionalSpecFns;

verus! {

/// Why a transaction request was rejected.
#[derive(Clone, Copy, PartialEq, Eq, Structural, Debug)]
pub enum TransacaoError {
    /// The client id did not parse or is outside the known range.
    ClienteNotFound,
    /// The description is empty or longer than ten bytes.
    DescricaoInvalid,
    /// The kind is neither a credit (`"c"`) nor a debit (`"d"`).
    TipoInvalid,
    /// The amount is not positive.
    ValorInvalid,
    /// The debit would push the balance below the client's limit.
    LimiteExceeded,
}

/// The accepted transaction: the client's limit and the balance after the
/// movement.
#[derive(Clone, Copy, PartialEq, Eq, Structural, Debug)]
pub struct TransacaoReply {
    pub limite: i64,
    pub saldo: i64,
}

/// The preconfigured limit of each known client; clients are numbered one
/// through five.
pub open spec fn spec_limite(id: int) -> int {
    if id == 1 {
        100000
    } else if id == 2 {
        80000
    } else if id == 3 {
        1000000
    } else if id == 4 {
        10000000
    } else if id == 5 {
        500000
    } else {
        0
    }
}

/// The client id names a known client.
pub open spec fn spec_cliente_ok(cliente_id: Option<i64>) -> bool {
    cliente_id matches Some(id) && 1 <= id <= 5
}

/// The description holds between one and ten bytes.
pub open spec fn spec_descricao_ok(descricao: Seq<u8>) -> bool {
    1 <= descricao.len() <= 10
}

/// The kind is a single byte: `c` for a credit or `d` for a debit.
pub open spec fn spec_tipo_debit(tipo: Seq<u8>) -> bool {
    tipo =~= seq![100u8]
}

/// See `spec_tipo_debit`.
pub open spec fn spec_tipo_credit(tipo: Seq<u8>) -> bool {
    tipo =~= seq![99u8]
}

/// Decides one transaction request. `cliente_id` is the parsed path segment
/// (`None` when it was not a number), `valor` the amount, `tipo` the kind
/// (`"c"` or `"d"`), `descricao` the description. Checks run in this order:
/// known client, description length, kind, positive amount, and — for a
/// debit — the client's limit; the accepted reply carries the client's limit
/// and the balance after applying the movement to a fresh balance of zero.
pub fn transacao_decision(cliente_id: Option<i64>, valor: i64, tipo: &str, descricao: &str) -> (r:
    Result<TransacaoReply, TransacaoError>)
    ensures
        ({
            if !spec_cliente_ok(cliente_id) {
                r == Result::<TransacaoReply, TransacaoError>::Err(TransacaoError::ClienteNotFound)
            } else if !spec_descricao_ok(descricao.spec_bytes()) {
                r == Result::<TransacaoReply, TransacaoError>::Err(TransacaoError::DescricaoInvalid)
            } else if !spec_tipo_credit(tipo.spec_bytes()) && !spec_tipo_debit(tipo.spec_bytes()) {
                r == Result::<TransacaoReply, TransacaoError>::Err(TransacaoError::TipoInvalid)
            } else if valor <= 0 {
                r == Result::<TransacaoReply, TransacaoError>::Err(TransacaoError::ValorInvalid)
            } else {
                let id = cliente_id->Some_0;
                let limite = spec_limite(id as int);
                if spec_tipo_debit(tipo.spec_bytes()) {
                    if -valor < -limite {
                        r == Result::<TransacaoReply, TransacaoError>::Err(
                            TransacaoError::LimiteExceeded,
                        )
                    } else {
                        r matches Ok(reply) && reply.limite == limite && reply.saldo == -valor
                    }
                } else {
                    r matches Ok(reply) && reply.limite == limite && reply.saldo == valor
                }
            }
        }),
{
    let id: i64 = match cliente_id {
        Some(id) => {
            if 1 <= id && id <= 5 {
                id
            } else {
                return Err(TransacaoError::ClienteNotFound);
            }
        },
        None => {
            return Err(TransacaoError::ClienteNotFound);
        },
    };
    let descricao_bytes = descricao.as_bytes();
    if descricao_bytes.len() == 0 || descricao_bytes.len() > 10 {
        return Err(TransacaoError::DescricaoInvalid);
    }
    let tipo_bytes = tipo.as_bytes();
    let is_debit: bool = tipo_bytes.len() == 1 && tipo_bytes[0] == 100;
    let is_credit: bool = tipo_bytes.len() == 1 && tipo_bytes[0] == 99;
    if !is_debit && !is_credit {
        return Err(TransacaoError::TipoInvalid);
    }
    if valor <= 0 {
        return Err(TransacaoError::ValorInvalid);
    }
    let limite: i64 = if id == 1 {
        100000
    } else if id == 2 {
        80000
    } else if id == 3 {
        1000000
    } else if id == 4 {
        10000000
    } else {
        500000
    };
    if is_debit {
        let saldo: i64 = -valor;
        if saldo < -limite {
            return Err(TransacaoError::LimiteExceeded);
        }
        Ok(TransacaoReply { limite, saldo })
    } else {
        Ok(TransacaoReply { limite, saldo: valor })
    }
}

/// The HTTP status a rejection surfaces with: not-found for an unknown
/// client, unprocessable-entity for everything else.
pub fn rejection_status(e: &TransacaoError) -> (r: u16)
    ensures
        *e is ClienteNotFound ==> r == 404,
        !(*e is ClienteNotFound) ==> r == 422,
{
    match e {
        TransacaoError::ClienteNotFound => 404,
        _ => 422,
    }
}

} // verus!
