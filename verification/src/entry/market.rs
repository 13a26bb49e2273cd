use vstd::prelude::*;
use crate::de::{Decode, DecodeError, object, required, Verdict};
use crate::json::Json;

verus! {

/// The goods on offer at a station
#[derive(Debug)]
pub struct Market {
    pub system_name: String,
    pub station_name: String,
    pub market_id: i64,
    pub commodities: Vec<Commodity>,
}

impl Decode for Market {
    open spec fn verdict(json: Json) -> Verdict {
        Verdict::object(json)
            .and(Verdict::required::<String>(json, "systemName"@))
            .and(Verdict::required::<String>(json, "stationName"@))
            .and(Verdict::required::<i64>(json, "marketId"@))
            .and(Verdict::required::<Vec<Commodity>>(json, "commodities"@))
    }

    open spec fn agrees(&self, json: Json) -> bool {
        &&& json.gives("systemName"@, &self.system_name)
        &&& json.gives("stationName"@, &self.station_name)
        &&& json.gives("marketId"@, &self.market_id)
        &&& json.gives("commodities"@, &self.commodities)
    }

    fn decode(json: &Json) -> (r: Result<Market, DecodeError>) {
        object(json)?;
        let system_name = required::<String>(json, "systemName")?;
        let station_name = required::<String>(json, "stationName")?;
        let market_id = required::<i64>(json, "marketId")?;
        let commodities = required::<Vec<Commodity>>(json, "commodities")?;
        Ok(Market { system_name, station_name, market_id, commodities })
    }
}

/// One kind of goods with its prices and the market's appetite for it
#[derive(Clone, Debug, PartialEq)]
pub struct Commodity {
    pub name: String,
    pub mean_price: i32,
    pub buy_price: i32,
    pub sell_price: i32,
    pub demand: i32,
    pub demand_bracket: i32,
    pub stock: i32,
    pub stock_bracket: i32,
}

impl Decode for Commodity {
    open spec fn verdict(json: Json) -> Verdict {
        Verdict::object(json)
            .and(Verdict::required::<String>(json, "name"@))
            .and(Verdict::required::<i32>(json, "meanPrice"@))
            .and(Verdict::required::<i32>(json, "buyPrice"@))
            .and(Verdict::required::<i32>(json, "sellPrice"@))
            .and(Verdict::required::<i32>(json, "demand"@))
            .and(Verdict::required::<i32>(json, "demandBracket"@))
            .and(Verdict::required::<i32>(json, "stock"@))
            .and(Verdict::required::<i32>(json, "stockBracket"@))
    }

    open spec fn agrees(&self, json: Json) -> bool {
        &&& json.gives("name"@, &self.name)
        &&& json.gives("meanPrice"@, &self.mean_price)
        &&& json.gives("buyPrice"@, &self.buy_price)
        &&& json.gives("sellPrice"@, &self.sell_price)
        &&& json.gives("demand"@, &self.demand)
        &&& json.gives("demandBracket"@, &self.demand_bracket)
        &&& json.gives("stock"@, &self.stock)
        &&& json.gives("stockBracket"@, &self.stock_bracket)
    }

    fn decode(json: &Json) -> (r: Result<Commodity, DecodeError>) {
        object(json)?;
        let name = required::<String>(json, "name")?;
        let mean_price = required::<i32>(json, "meanPrice")?;
        let buy_price = required::<i32>(json, "buyPrice")?;
        let sell_price = required::<i32>(json, "sellPrice")?;
        let demand = required::<i32>(json, "demand")?;
        let demand_bracket = required::<i32>(json, "demandBracket")?;
        let stock = required::<i32>(json, "stock")?;
        let stock_bracket = required::<i32>(json, "stockBracket")?;
        Ok(Commodity {
            name,
            mean_price,
            buy_price,
            sell_price,
            demand,
            demand_bracket,
            stock,
            stock_bracket,
        })
    }
}

} // verus!
